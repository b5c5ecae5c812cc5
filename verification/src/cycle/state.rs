use vstd::prelude::*;

use crate::abstractions::memory::AccessType;
use crate::abstractions::memory::MemorySource;
use crate::abstractions::mem_read;
use crate::abstractions::mem_write;
use crate::abstractions::spec_mem_read;
use crate::abstractions::spec_mem_write;
use crate::cycle::opcode_formats::BTypeOpcode;
use crate::cycle::opcode_formats::ITypeOpcode;
use crate::cycle::opcode_formats::JTypeOpcode;
use crate::cycle::opcode_formats::STypeOpcode;
use crate::cycle::opcode_formats::UTypeOpcode;
use crate::cycle::opcode_formats::get_formal_rs1;
use crate::cycle::opcode_formats::get_formal_rs2;
use crate::cycle::opcode_formats::get_rd;
use crate::abstractions::non_determinism::nd_read_chain;
use crate::abstractions::non_determinism::NonDeterminismCSRSource;
use crate::abstractions::tracer::Tracer;
use crate::cycle::status_registers::InterruptReason;
use crate::delegations::blake2_round_function::spec_blake2_round_result;
use crate::delegations::blake2_round_function_state_in_registers::lemma_blake2_regs_state_view;
use crate::delegations::blake2_round_function_state_in_registers::spec_blake2_regs_state;
use crate::delegations::blake2_round_function_with_final_xor::spec_with_xor_result;
use crate::delegations::blake2s::spec_blake2s_result;
use crate::delegations::mersenne_ext4_fma::lemma_mersenne_fma_state_view;
use crate::delegations::mersenne_ext4_fma::spec_mersenne_fma_state;
use crate::delegations::poseidon2_provide_witness_and_compress::spec_poseidon2_result;
use crate::delegations::spec_deleg_base;
use crate::delegations::spec_store_words;
use crate::cycle::status_registers::MStatusRegister;
use crate::cycle::status_registers::TrapReason;
use crate::mmu::MMUImplementation;

verus! {

broadcast use vstd::array::group_array_axioms;

pub const NUM_REGISTERS: usize = 32;

pub const MAX_MEMORY_OPS_PER_CYCLE: u32 = 3;

/// CSR index of the non-determinism (oracle) port.
pub const NON_DETERMINISM_CSR: u32 = 0x7c0;

/// Privilege mode, encoded in two bits.
#[derive(Clone, Copy, Debug, PartialEq, Eq, Structural)]
pub enum Mode {
    User,
    Supervisor,
    Reserved,
    Machine,
}

impl Mode {
    pub open spec fn spec_register_value(self) -> u32 {
        match self {
            Mode::User => 0,
            Mode::Supervisor => 1,
            Mode::Reserved => 2,
            Mode::Machine => 3,
        }
    }

    pub fn as_register_value(self) -> (r: u32)
        ensures
            r == self.spec_register_value(),
    {
        match self {
            Mode::User => 0,
            Mode::Supervisor => 1,
            Mode::Reserved => 2,
            Mode::Machine => 3,
        }
    }

    pub open spec fn spec_from_bits(src: u32) -> Mode {
        if src == 0 {
            Mode::User
        } else if src == 1 {
            Mode::Supervisor
        } else if src == 2 {
            Mode::Reserved
        } else {
            Mode::Machine
        }
    }

    /// Decode a two-bit mode value.
    pub fn from_proper_bit_value(src: u32) -> (r: Self)
        requires
            src < 4,
        ensures
            r == Mode::spec_from_bits(src),
            r.spec_register_value() == src,
    {
        if src == 0 {
            Mode::User
        } else if src == 1 {
            Mode::Supervisor
        } else if src == 2 {
            Mode::Reserved
        } else {
            Mode::Machine
        }
    }
}

/// The machine-mode trap-state registers: `mstatus`, `mie`, `mip`.
#[derive(Clone, Copy, Debug, PartialEq, Eq, Structural, Default)]
pub struct TrapStateRegisters {
    pub status: u32,
    pub ie: u32,
    pub ip: u32,
}

/// The machine-mode trap-setup registers: `mtvec`.
#[derive(Clone, Copy, Debug, PartialEq, Eq, Structural, Default)]
pub struct TrapSetupRegisters {
    pub tvec: u32,
}

/// The machine-mode trap-handling registers: `mscratch`, `mepc`, `mcause`, `mtval`.
#[derive(Clone, Copy, Debug, PartialEq, Eq, Structural, Default)]
pub struct TrapHandlingRegisters {
    pub scratch: u32,
    pub epc: u32,
    pub cause: u32,
    pub tval: u32,
}

/// The full machine-mode CSR bundle.
#[derive(Clone, Copy, Debug, PartialEq, Eq, Structural, Default)]
pub struct ModeStatusAndTrapRegisters {
    pub state: TrapStateRegisters,
    pub setup: TrapSetupRegisters,
    pub handling: TrapHandlingRegisters,
}

/// Packed word holding the current privilege mode (bits 0..2) and the
/// wait-for-interrupt latch (bit 2).
#[derive(Clone, Copy, Debug, PartialEq, Eq, Structural, Default)]
pub struct ExtraFlags(pub u32);

impl ExtraFlags {
    pub const WAIT_FOR_INTERRUPT_BIT: u32 = 2;

    pub open spec fn spec_mode_bits(self) -> u32 {
        self.0 & 3u32
    }

    pub open spec fn spec_mode(self) -> Mode {
        Mode::spec_from_bits(self.spec_mode_bits())
    }

    pub fn get_current_mode(self) -> (r: Mode)
        ensures
            r == self.spec_mode(),
    {
        proof {
            lemma_mask2_bound(self.0);
        }
        Mode::from_proper_bit_value(self.0 & 3)
    }

    pub fn set_mode(&mut self, mode: Mode)
        ensures
            final(self).0 == (old(self).0 & !3u32) | mode.spec_register_value(),
    {
        self.0 = (self.0 & !3u32) | mode.as_register_value();
    }

    pub fn set_mode_raw(&mut self, mode_bits: u32)
        ensures
            final(self).0 == (old(self).0 & !3u32) | mode_bits,
    {
        self.0 = (self.0 & !3u32) | mode_bits;
    }

    pub open spec fn spec_wait_for_interrupt(self) -> u32 {
        self.0 & 4u32
    }

    pub fn get_wait_for_interrupt(self) -> (r: u32)
        ensures
            r == self.spec_wait_for_interrupt(),
    {
        self.0 & 4
    }

    pub fn set_wait_for_interrupt_bit(&mut self)
        ensures
            final(self).0 == old(self).0 | 4u32,
    {
        self.0 = self.0 | 4;
    }

    pub fn clear_wait_for_interrupt_bit(&mut self)
        ensures
            final(self).0 == old(self).0 & !4u32,
    {
        self.0 = self.0 & !4;
    }
}

proof fn lemma_mask2_bound(x: u32)
    by (bit_vector)
    ensures
        x & 3u32 < 4,
{
}

/// Full architectural state of the hart.
#[derive(Clone, Copy, Debug, PartialEq, Eq)]
pub struct RiscV32State {
    pub registers: [u32; 32],
    pub pc: u32,
    pub extra_flags: ExtraFlags,
    pub cycle_counter: u64,
    pub timer: u64,
    pub timer_match: u64,
    pub machine_mode_trap_data: ModeStatusAndTrapRegisters,
    pub sapt: u32,
}

/// Records the architectural state once per cycle, in order.
#[derive(Clone, Debug)]
pub struct StateTracer {
    pub tracer: Vec<RiscV32State>,
}

impl View for StateTracer {
    type V = Seq<RiscV32State>;

    open spec fn view(&self) -> Seq<RiscV32State> {
        self.tracer@
    }
}

impl StateTracer {
    pub fn new_for_num_cycles(num_cycles: usize) -> (r: Self)
        requires
            num_cycles < usize::MAX,
        ensures
            r@ == Seq::<RiscV32State>::empty(),
    {
        Self { tracer: Vec::with_capacity(num_cycles + 1) }
    }

    /// States must be inserted in cycle order, each exactly once.
    pub fn insert(&mut self, idx: usize, state: RiscV32State)
        requires
            idx == old(self)@.len(),
            old(self)@.len() < usize::MAX,
        ensures
            final(self)@ == old(self)@.push(state),
    {
        self.tracer.push(state);
    }

    pub fn get(&self, idx: usize) -> (r: Option<&RiscV32State>)
        ensures
            (match r {
                Some(s) => idx < self@.len() && *s == self@[idx as int],
                None => idx >= self@.len(),
            }),
    {
        if idx < self.tracer.len() {
            Some(&self.tracer[idx])
        } else {
            None
        }
    }
}

impl RiscV32State {
    /// Register 0 is hardwired to zero; every state the simulator produces
    /// keeps it so.
    pub open spec fn wf(self) -> bool {
        self.registers[0] == 0
    }

    /// Reset state: machine mode, all registers and trap CSRs cleared,
    /// the timer match pushed out to infinity.
    pub fn initial(initial_pc: u32) -> (r: Self)
        ensures
            r.wf(),
            r.pc == initial_pc,
            r.extra_flags.0 == 3u32,
            r.extra_flags.spec_mode() == Mode::Machine,
            r.extra_flags.spec_wait_for_interrupt() == 0,
            r.cycle_counter == 0,
            r.timer == 0,
            r.timer_match == u64::MAX,
            r.machine_mode_trap_data == (ModeStatusAndTrapRegisters {
                state: TrapStateRegisters { status: 0, ie: 0, ip: 0 },
                setup: TrapSetupRegisters { tvec: 0 },
                handling: TrapHandlingRegisters { scratch: 0, epc: 0, cause: 0, tval: 0 },
            }),
            r.sapt == 0,
            forall|i: int| 0 <= i < 32 ==> r.registers[i] == 0,
    {
        let registers = [0u32;32];
        let mut extra_flags = ExtraFlags(0u32);
        extra_flags.set_mode(Mode::Machine);
        proof {
            lemma_initial_flags();
        }

        let machine_mode_trap_data = ModeStatusAndTrapRegisters {
            state: TrapStateRegisters { status: 0, ie: 0, ip: 0 },
            setup: TrapSetupRegisters { tvec: 0 },
            handling: TrapHandlingRegisters { scratch: 0, epc: 0, cause: 0, tval: 0 },
        };

        Self {
            registers,
            pc: initial_pc,
            extra_flags,
            cycle_counter: 0u64,
            timer: 0u64,
            timer_match: u64::MAX,
            machine_mode_trap_data,
            sapt: 0u32,
        }
    }
}

/// Sign-extend the low `bits` bits of a value.
pub open spec fn spec_sign_extend(value: u32, bits: u32) -> u32 {
    if (value >> (bits - 1) as u32) & 1u32 == 1u32 {
        value | (0xffff_ffffu32 << bits)
    } else {
        value
    }
}

/// Sign-extend the low `bits` bits of a value in place.
pub fn sign_extend(value: &mut u32, bits: u32)
    requires
        1 <= bits && bits <= 31,
    ensures
        *final(value) == spec_sign_extend(*old(value), bits),
{
    if (*value >> (bits - 1)) & 1 == 1 {
        *value = *value | (0xffff_ffffu32 << bits);
    }
}

/// The low byte of a value, sign-extended to 32 bits.
pub open spec fn spec_sign_extend_8(value: u32) -> u32 {
    if value & 0x80u32 != 0 {
        (value & 0xffu32) | 0xffff_ff00u32
    } else {
        value & 0xffu32
    }
}

pub fn sign_extend_8(value: u32) -> (r: u32)
    ensures
        r == spec_sign_extend_8(value),
{
    if value & 0x80 != 0 {
        (value & 0xff) | 0xffff_ff00
    } else {
        value & 0xff
    }
}

/// The low halfword of a value, sign-extended to 32 bits.
pub open spec fn spec_sign_extend_16(value: u32) -> u32 {
    if value & 0x8000u32 != 0 {
        (value & 0xffffu32) | 0xffff_0000u32
    } else {
        value & 0xffffu32
    }
}

pub fn sign_extend_16(value: u32) -> (r: u32)
    ensures
        r == spec_sign_extend_16(value),
{
    if value & 0x8000 != 0 {
        (value & 0xffff) | 0xffff_0000
    } else {
        value & 0xffff
    }
}

/// The low byte of a value, zero-extended.
pub fn zero_extend_8(value: u32) -> (r: u32)
    ensures
        r == value & 0xffu32,
{
    value & 0xff
}

/// The low halfword of a value, zero-extended.
pub fn zero_extend_16(value: u32) -> (r: u32)
    ensures
        r == value & 0xffffu32,
{
    value & 0xffff
}

/// Decoded instruction fields, as the bit expressions the formats define.
pub open spec fn spec_funct3(instr: u32) -> u32 {
    (instr >> 12u32) & 7u32
}

pub open spec fn spec_funct7(instr: u32) -> u32 {
    instr >> 25u32
}

pub open spec fn spec_rd(instr: u32) -> u32 {
    (instr >> 7u32) & 0x1fu32
}

pub open spec fn spec_rs1_idx(instr: u32) -> u32 {
    (instr >> 15u32) & 0x1fu32
}

pub open spec fn spec_rs2_idx(instr: u32) -> u32 {
    (instr >> 20u32) & 0x1fu32
}

pub open spec fn spec_stype_imm(src: u32) -> u32 {
    ((src >> 7u32) & 0x1fu32) | (((src >> 25u32) & 0x7fu32) << 5u32)
}

pub open spec fn spec_btype_imm(src: u32) -> u32 {
    (((src >> 8u32) & 0xfu32) << 1u32) | (((src >> 25u32) & 0x3fu32) << 5u32) | (((src >> 7u32)
        & 1u32) << 11u32) | (((src >> 31u32) & 1u32) << 12u32)
}

pub open spec fn spec_jtype_imm(src: u32) -> u32 {
    (((src >> 21u32) & 0x3ffu32) << 1u32) | (((src >> 20u32) & 1u32) << 11u32) | (src & 0xff000u32)
        | (((src >> 31u32) & 1u32) << 20u32)
}

/// Rotate left by `n` (n < 32).
pub open spec fn spec_rotl(x: u32, n: u32) -> u32 {
    if n == 0 {
        x
    } else {
        (x << n) | (x >> (32 - n) as u32)
    }
}

/// Rotate right by `n` (n < 32).
pub open spec fn spec_rotr(x: u32, n: u32) -> u32 {
    if n == 0 {
        x
    } else {
        (x >> n) | (x << (32 - n) as u32)
    }
}

/// Signed division with the architectural special cases: division by zero
/// yields all-ones, and the one overflowing quotient yields the dividend.
pub open spec fn spec_div_signed(a: u32, b: u32) -> u32 {
    if b == 0 {
        0xffff_ffffu32
    } else if a as i32 == i32::MIN && b as i32 == -1i32 {
        a
    } else {
        match (a as i32).checked_div(b as i32) {
            Option::Some(q) => q as u32,
            Option::None => 0u32,
        }
    }
}

/// Signed remainder with the architectural special cases: remainder by
/// zero yields the dividend, and the one overflowing case yields zero.
pub open spec fn spec_rem_signed(a: u32, b: u32) -> u32 {
    if b == 0 {
        a
    } else if a as i32 == i32::MIN && b as i32 == -1i32 {
        0u32
    } else {
        match (a as i32).checked_rem(b as i32) {
            Option::Some(q) => q as u32,
            Option::None => 0u32,
        }
    }
}

/// Whether the funct7 field matches the canonical encoding of the decoded
/// base-set operation; shifts and subtract demand fixed patterns.
pub open spec fn spec_valid_base_encoding(is_r_type: bool, funct3: u32, funct7: u32) -> bool {
    if !is_r_type {
        if funct3 == 1 {
            funct7 == 0 || funct7 == 0x30
        } else if funct3 == 5 {
            funct7 == 0 || funct7 == 0x20 || funct7 == 0x30
        } else {
            true
        }
    } else {
        if funct3 == 0 || funct3 == 5 {
            funct7 == 0 || funct7 == 0x20
        } else {
            funct7 == 0
        }
    }
}

/// The result of an OP or OP-IMM instruction on its two operands, or
/// `None` when the encoding is illegal. Covers the base set, the M
/// extension, rotations and the unsigned-minimum extension.
pub open spec fn spec_alu(instr: u32, op1: u32, op2: u32) -> Option<u32> {
    let funct3 = spec_funct3(instr);
    let funct7 = spec_funct7(instr);
    let is_r_type = instr & 0x20u32 != 0;
    if is_r_type && funct7 == 1 {
        Option::Some(
            if funct3 == 0 {
                (op1 as i32).wrapping_mul(op2 as i32) as u32
            } else if funct3 == 1 {
                ((((op1 as i32) as i64).wrapping_mul((op2 as i32) as i64)) >> 32u32) as u32
            } else if funct3 == 2 {
                ((((op1 as i32) as i64).wrapping_mul((op2 as u64) as i64)) >> 32u32) as u32
            } else if funct3 == 3 {
                (((op1 as u64).wrapping_mul(op2 as u64)) >> 32u32) as u32
            } else if funct3 == 4 {
                spec_div_signed(op1, op2)
            } else if funct3 == 5 {
                if op2 == 0 {
                    0xffff_ffffu32
                } else {
                    op1 / op2
                }
            } else if funct3 == 6 {
                spec_rem_signed(op1, op2)
            } else {
                if op2 == 0 {
                    op1
                } else {
                    op1 % op2
                }
            },
        )
    } else if is_r_type && funct7 == 5 {
        if funct3 == 5 {
            Option::Some(
                if op1 < op2 {
                    op1
                } else {
                    op2
                },
            )
        } else {
            Option::None
        }
    } else {
        let sh = op2 & 0x1fu32;
        let value = if funct3 == 0 {
            if is_r_type && instr & 0x4000_0000u32 != 0 {
                op1.wrapping_sub(op2)
            } else {
                op1.wrapping_add(op2)
            }
        } else if funct3 == 1 {
            if instr & 0x6000_0000u32 == 0x6000_0000u32 {
                spec_rotl(op1, sh)
            } else {
                op1 << sh
            }
        } else if funct3 == 2 {
            if (op1 as i32) < (op2 as i32) {
                1u32
            } else {
                0u32
            }
        } else if funct3 == 3 {
            if op1 < op2 {
                1u32
            } else {
                0u32
            }
        } else if funct3 == 4 {
            op1 ^ op2
        } else if funct3 == 5 {
            if instr & 0x6000_0000u32 == 0x6000_0000u32 {
                spec_rotr(op1, sh)
            } else if instr & 0x4000_0000u32 != 0 {
                ((op1 as i32) >> sh) as u32
            } else {
                op1 >> sh
            }
        } else if funct3 == 6 {
            op1 | op2
        } else {
            op1 & op2
        };
        if spec_valid_base_encoding(is_r_type, funct3, funct7) {
            Option::Some(value)
        } else {
            Option::None
        }
    }
}

proof fn lemma_mask5_lt32(x: u32)
    by (bit_vector)
    ensures
        x & 0x1fu32 < 32,
{
}

proof fn lemma_mask1_le1(x: u32)
    by (bit_vector)
    ensures
        x & 1u32 <= 1,
{
}

/// Executable twin of `spec_alu`.
pub fn apply_op(instr: u32, op1: u32, op2: u32) -> (r: Option<u32>)
    ensures
        r == spec_alu(instr, op1, op2),
{
    let funct3 = (instr >> 12) & 7;
    let funct7 = instr >> 25;
    let is_r_type = instr & 0x20 != 0;
    proof {
        lemma_mask5_lt32(op2);
    }
    if is_r_type && funct7 == 1 {
        let v: u32 = if funct3 == 0 {
            (op1 as i32).wrapping_mul(op2 as i32) as u32
        } else if funct3 == 1 {
            ((((op1 as i32) as i64).wrapping_mul((op2 as i32) as i64)) >> 32u32) as u32
        } else if funct3 == 2 {
            ((((op1 as i32) as i64).wrapping_mul((op2 as u64) as i64)) >> 32u32) as u32
        } else if funct3 == 3 {
            (((op1 as u64).wrapping_mul(op2 as u64)) >> 32u32) as u32
        } else if funct3 == 4 {
            if op2 == 0 {
                0xffff_ffff
            } else if op1 as i32 == i32::MIN && op2 as i32 == -1i32 {
                op1
            } else {
                match (op1 as i32).checked_div(op2 as i32) {
                    Some(q) => q as u32,
                    None => 0,
                }
            }
        } else if funct3 == 5 {
            if op2 == 0 {
                0xffff_ffff
            } else {
                op1 / op2
            }
        } else if funct3 == 6 {
            if op2 == 0 {
                op1
            } else if op1 as i32 == i32::MIN && op2 as i32 == -1i32 {
                0
            } else {
                match (op1 as i32).checked_rem(op2 as i32) {
                    Some(q) => q as u32,
                    None => 0,
                }
            }
        } else {
            if op2 == 0 {
                op1
            } else {
                op1 % op2
            }
        };
        Some(v)
    } else if is_r_type && funct7 == 5 {
        if funct3 == 5 {
            Some(
                if op1 < op2 {
                    op1
                } else {
                    op2
                },
            )
        } else {
            None
        }
    } else {
        let sh = op2 & 0x1f;
        let value: u32 = if funct3 == 0 {
            if is_r_type && instr & 0x4000_0000 != 0 {
                op1.wrapping_sub(op2)
            } else {
                op1.wrapping_add(op2)
            }
        } else if funct3 == 1 {
            if instr & 0x6000_0000 == 0x6000_0000 {
                rotate_left(op1, sh)
            } else {
                op1 << sh
            }
        } else if funct3 == 2 {
            if (op1 as i32) < (op2 as i32) {
                1
            } else {
                0
            }
        } else if funct3 == 3 {
            if op1 < op2 {
                1
            } else {
                0
            }
        } else if funct3 == 4 {
            op1 ^ op2
        } else if funct3 == 5 {
            if instr & 0x6000_0000 == 0x6000_0000 {
                rotate_right(op1, sh)
            } else if instr & 0x4000_0000 != 0 {
                ((op1 as i32) >> sh) as u32
            } else {
                op1 >> sh
            }
        } else if funct3 == 6 {
            op1 | op2
        } else {
            op1 & op2
        };
        let valid_encoding = if !is_r_type {
            if funct3 == 1 {
                funct7 == 0 || funct7 == 0x30
            } else if funct3 == 5 {
                funct7 == 0 || funct7 == 0x20 || funct7 == 0x30
            } else {
                true
            }
        } else {
            if funct3 == 0 || funct3 == 5 {
                funct7 == 0 || funct7 == 0x20
            } else {
                funct7 == 0
            }
        };
        if valid_encoding {
            Some(value)
        } else {
            None
        }
    }
}

/// Rotate left by `n` bit positions.
pub fn rotate_left(x: u32, n: u32) -> (r: u32)
    requires
        n < 32,
    ensures
        r == spec_rotl(x, n),
{
    if n == 0 {
        x
    } else {
        (x << n) | (x >> (32 - n))
    }
}

/// Rotate right by `n` bit positions.
pub fn rotate_right(x: u32, n: u32) -> (r: u32)
    requires
        n < 32,
    ensures
        r == spec_rotr(x, n),
{
    if n == 0 {
        x
    } else {
        (x >> n) | (x << (32 - n))
    }
}

/// Whether a branch with the given condition code is taken, or `None` for
/// an illegal condition.
pub open spec fn spec_branch_taken(funct3: u32, rs1: u32, rs2: u32) -> Option<bool> {
    if funct3 == 0 {
        Option::Some(rs1 == rs2)
    } else if funct3 == 1 {
        Option::Some(rs1 != rs2)
    } else if funct3 == 4 {
        Option::Some((rs1 as i32) < (rs2 as i32))
    } else if funct3 == 5 {
        Option::Some((rs1 as i32) >= (rs2 as i32))
    } else if funct3 == 6 {
        Option::Some(rs1 < rs2)
    } else if funct3 == 7 {
        Option::Some(rs1 >= rs2)
    } else {
        Option::None
    }
}

/// Executable twin of `spec_branch_taken`.
pub fn branch_taken(funct3: u32, rs1: u32, rs2: u32) -> (r: Option<bool>)
    ensures
        r == spec_branch_taken(funct3, rs1, rs2),
{
    match funct3 {
        0 => Some(rs1 == rs2),
        1 => Some(rs1 != rs2),
        4 => Some((rs1 as i32) < (rs2 as i32)),
        5 => Some((rs1 as i32) >= (rs2 as i32)),
        6 => Some(rs1 < rs2),
        7 => Some(rs1 >= rs2),
        _ => None,
    }
}

/// The register file after writing `value` to `rd`; writes to register 0
/// are dropped.
pub open spec fn spec_reg_update(regs: [u32; 32], rd: u32, value: u32) -> [u32; 32] {
    if rd != 0 {
        vstd::array::spec_array_update(regs, rd as int, value)
    } else {
        regs
    }
}

/// How a cycle touched the non-determinism port.
pub enum NdEffect {
    Untouched,
    ReadOnly,
    WriteOnly(u32),
    ReadThenWrite(u32),
    /// The port was read this many times in a row (a delegation kernel
    /// drawing witness words).
    ReadChain(int),
}

/// How the source may have stepped, given the port effect of a cycle.
pub open spec fn nd_effect_rel<M: MemorySource, ND: NonDeterminismCSRSource<M>>(
    eff: NdEffect,
    mem: Seq<u32>,
    pre: ND,
    post: ND,
) -> bool {
    match eff {
        NdEffect::Untouched => post == pre,
        NdEffect::ReadOnly => pre.read_rel(post),
        NdEffect::WriteOnly(wv) => pre.write_rel(mem, wv, post),
        NdEffect::ReadThenWrite(wv) => exists|mid: ND|
            #[trigger] pre.read_rel(mid) && mid.write_rel(mem, wv, post),
        NdEffect::ReadChain(n) => exists|c: Seq<ND>|
            #[trigger] nd_read_chain::<M, ND>(c) && c.len() == n + 1 && c.first() == pre
                && c.last() == post,
    }
}

/// What one instruction does, before trap dispatch: the state with all
/// register and CSR effects applied (but the old `pc` and `sapt`), the
/// memory image, the address translator, the port effect, the trap raised
/// with its `tval`, the next program counter, and whether the instruction
/// was WFI.
pub struct ExecOutcome<MMU> {
    pub state: RiscV32State,
    pub mem: Seq<u32>,
    pub mmu: MMU,
    pub nd: NdEffect,
    pub trap: TrapReason,
    pub tval: u32,
    pub pc: u32,
    pub wfi: bool,
}

/// What a whole cycle does.
pub struct CycleOutcome<MMU> {
    pub state: RiscV32State,
    pub mem: Seq<u32>,
    pub mmu: MMU,
    pub nd: NdEffect,
}

/// The timer advances every cycle; the machine-timer pending bit follows
/// the comparison with the timer match.
pub open spec fn spec_tick(s: RiscV32State) -> RiscV32State {
    let t = s.timer.wrapping_add(1u64);
    let ip0 = s.machine_mode_trap_data.state.ip;
    let ip1 = if t > s.timer_match {
        ip0 | 0x80u32
    } else {
        ip0 & !0x80u32
    };
    RiscV32State {
        timer: t,
        cycle_counter: s.cycle_counter.wrapping_add(1u64),
        machine_mode_trap_data: ModeStatusAndTrapRegisters {
            state: TrapStateRegisters { ip: ip1, ..s.machine_mode_trap_data.state },
            ..s.machine_mode_trap_data
        },
        ..s
    }
}

/// A machine-timer interrupt fires when the global enable, the timer
/// enable and the timer pending bits are all set.
pub open spec fn spec_interrupt_pending(s: RiscV32State) -> bool {
    (s.machine_mode_trap_data.state.status >> 3u32) & 1u32 == 1 && s.machine_mode_trap_data.state.ie
        & 0x80u32 != 0 && s.machine_mode_trap_data.state.ip & 0x80u32 != 0
}

/// The trap-entry CSR effects: record cause, tval and epc, copy MIE into
/// MPIE, and enter machine mode. The program counter is not part of this
/// step.
pub open spec fn spec_trap_csrs(s: RiscV32State, cause: u32, tval: u32, epc: u32) -> RiscV32State {
    let status = s.machine_mode_trap_data.state.status;
    let status2 = (status & !0x80u32) | (((status >> 3u32) & 1u32) << 7u32);
    RiscV32State {
        extra_flags: ExtraFlags((s.extra_flags.0 & !3u32) | 3u32),
        machine_mode_trap_data: ModeStatusAndTrapRegisters {
            state: TrapStateRegisters { status: status2, ..s.machine_mode_trap_data.state },
            setup: s.machine_mode_trap_data.setup,
            handling: TrapHandlingRegisters {
                scratch: s.machine_mode_trap_data.handling.scratch,
                epc,
                cause,
                tval,
            },
        },
        ..s
    }
}

/// A completed instruction: write the destination register and advance
/// the program counter past the (possibly rewritten) value.
pub open spec fn spec_finish<MMU>(
    s: RiscV32State,
    mem: Seq<u32>,
    mmu: MMU,
    nd_eff: NdEffect,
    rd: u32,
    ret: u32,
    pc_mod: u32,
) -> ExecOutcome<MMU> {
    ExecOutcome {
        state: RiscV32State { registers: spec_reg_update(s.registers, rd, ret), ..s },
        mem,
        mmu,
        nd: nd_eff,
        trap: TrapReason::NoTrap,
        tval: 0u32,
        pc: pc_mod.wrapping_add(4u32),
        wfi: false,
    }
}


/// The CSR-side value a delegation write hands its kernel: the written
/// value under the update semantics, with the port reading as zero.
pub open spec fn spec_delegation_write_val(instr: u32, rs1v: u32) -> u32 {
    let funct3 = spec_funct3(instr);
    if funct3 == 1 || funct3 == 2 {
        rs1v
    } else if funct3 == 5 || funct3 == 6 {
        spec_rs1_idx(instr)
    } else {
        0u32
    }
}

/// A CSR access into the reserved delegation window: the read delivers
/// zero; an unsuppressed write runs the kernel the index names, leaving
/// the ABI region (or the register file) with the kernel's stated
/// result; the witness kernel additionally draws eight words from the
/// oracle port.
pub open spec fn spec_delegation_system<MMU>(
    s: RiscV32State,
    mem: Seq<u32>,
    mmu: MMU,
    instr: u32,
    rs1v: u32,
    pc: u32,
) -> ExecOutcome<MMU> {
    let funct3 = spec_funct3(instr);
    let csr = instr >> 20u32;
    let rd = spec_rd(instr);
    let rs1_idx = spec_rs1_idx(instr);
    let write_val = spec_delegation_write_val(instr, rs1v);
    let suppressed = (funct3 == 2 || funct3 == 3 || funct3 == 6 || funct3 == 7) && rs1_idx == 0;
    let base = spec_deleg_base(write_val);
    if suppressed {
        spec_finish(s, mem, mmu, NdEffect::Untouched, rd, 0u32, pc)
    } else if csr == NON_DETERMINISM_CSR + 1 {
        spec_finish(
            s,
            spec_store_words(mem, base, spec_blake2s_result(mem, base, false)),
            mmu,
            NdEffect::Untouched,
            rd,
            0u32,
            pc,
        )
    } else if csr == NON_DETERMINISM_CSR + 2 {
        spec_finish(
            s,
            spec_store_words(mem, base, spec_blake2_round_result(mem, base)),
            mmu,
            NdEffect::Untouched,
            rd,
            0u32,
            pc,
        )
    } else if csr == NON_DETERMINISM_CSR + 3 {
        spec_finish(
            s,
            spec_store_words(mem, base, spec_with_xor_result(mem, base)),
            mmu,
            NdEffect::Untouched,
            rd,
            0u32,
            pc,
        )
    } else if csr == NON_DETERMINISM_CSR + 4 {
        spec_finish(
            spec_blake2_regs_state(s, mem, base),
            mem,
            mmu,
            NdEffect::Untouched,
            rd,
            0u32,
            pc,
        )
    } else if csr == NON_DETERMINISM_CSR + 5 {
        spec_finish(spec_mersenne_fma_state(s), mem, mmu, NdEffect::Untouched, rd, 0u32, pc)
    } else {
        spec_finish(
            s,
            spec_store_words(mem, base, spec_poseidon2_result(mem, base)),
            mmu,
            NdEffect::ReadChain(8),
            rd,
            0u32,
            pc,
        )
    }
}

/// The guest-host obligation of a delegating cycle: if the instruction
/// this cycle fetches dispatches a delegation-window write, the named
/// kernel's ABI contract holds of the machine. Violations are fatal host
/// invariants, never guest traps, so the engine demands this of its
/// caller. `s` is the state after the timer tick.
pub open spec fn spec_delegation_abi_ok<
    M: MemorySource,
    TR: Tracer,
    MMU: MMUImplementation<M, TR>,
>(s: RiscV32State, mem: Seq<u32>, mmu: MMU) -> bool {
    let mode = s.extra_flags.spec_mode();
    let tr_ = mmu.spec_translate(mem, s.pc, mode, AccessType::Instruction);
    let fetched = spec_mem_read(mem, tr_.0, 4u32, AccessType::Instruction, true);
    let instr = fetched.0;
    let funct3 = spec_funct3(instr);
    let csr = instr >> 20u32;
    let rs1_idx = spec_rs1_idx(instr);
    let rs1v = s.registers[rs1_idx as int];
    let dispatching = {
        &&& tr_.1 == TrapReason::NoTrap
        &&& tr_.0 & 3u64 == 0u64
        &&& fetched.1 == TrapReason::NoTrap
        &&& instr & 0x7fu32 == 0x73
        &&& funct3 & 3u32 != 0
        &&& (csr >> 8u32) & 3u32 <= mode.spec_register_value()
        &&& NON_DETERMINISM_CSR + 1 <= csr <= NON_DETERMINISM_CSR + 6
        &&& !((funct3 == 2 || funct3 == 3 || funct3 == 6 || funct3 == 7) && rs1_idx == 0)
    };
    dispatching ==> crate::abstractions::csr_processor::CustomCSRProcessor::spec_write_pre(
        &crate::delegations::DelegationsCSRProcessor,
        s,
        mem,
        csr,
        spec_delegation_write_val(instr, rs1v),
        rs1_idx,
    )
}

/// The SYSTEM opcode: CSR accesses and the environment instructions.
pub open spec fn spec_system<
    M: MemorySource,
    TR: Tracer,
    ND: NonDeterminismCSRSource<M>,
    MMU: MMUImplementation<M, TR>,
>(
    s: RiscV32State,
    mem: Seq<u32>,
    mmu: MMU,
    nd: ND,
    instr: u32,
    rs1v: u32,
    pc: u32,
    mode: Mode,
    delegations: bool,
) -> ExecOutcome<MMU> {
    let no_change = ExecOutcome {
        state: s,
        mem,
        mmu,
        nd: NdEffect::Untouched,
        trap: TrapReason::NoTrap,
        tval: 0u32,
        pc,
        wfi: false,
    };
    let illegal = ExecOutcome {
        trap: TrapReason::IllegalInstruction,
        tval: instr,
        ..no_change
    };
    let funct3 = spec_funct3(instr);
    let csr = instr >> 20u32;
    let rd = spec_rd(instr);
    let rs1_idx = spec_rs1_idx(instr);
    if (csr >> 8u32) & 3u32 > mode.spec_register_value() {
        illegal
    } else if funct3 & 3u32 != 0 && delegations && NON_DETERMINISM_CSR + 1 <= csr
        <= NON_DETERMINISM_CSR + 6 {
        spec_delegation_system(s, mem, mmu, instr, rs1v, pc)
    } else if funct3 & 3u32 != 0 {
        let h = s.machine_mode_trap_data;
        let known = csr == 0x180 || csr == 0x300 || csr == 0x304 || csr == 0x305 || csr == 0x340
            || csr == 0x341 || csr == 0x342 || csr == 0x343 || csr == 0x344 || csr == 0x7c0;
        if !known {
            illegal
        } else {
            let read_performed = csr == 0x7c0 && !(ND::spec_should_mock_reads_before_writes() && (
            funct3 == 1 || funct3 == 5));
            let ret = if csr == 0x180 {
                mmu.spec_read_sapt(mode)
            } else if csr == 0x300 {
                h.state.status
            } else if csr == 0x304 {
                h.state.ie
            } else if csr == 0x305 {
                h.setup.tvec
            } else if csr == 0x340 {
                h.handling.scratch
            } else if csr == 0x341 {
                h.handling.epc
            } else if csr == 0x342 {
                h.handling.cause
            } else if csr == 0x343 {
                h.handling.tval
            } else if csr == 0x344 {
                h.state.ip
            } else if read_performed {
                nd.read_result()
            } else {
                0u32
            };
            let write_val = if funct3 == 1 {
                rs1v
            } else if funct3 == 2 {
                ret | rs1v
            } else if funct3 == 3 {
                ret & !rs1v
            } else if funct3 == 5 {
                rs1_idx
            } else if funct3 == 6 {
                ret | rs1_idx
            } else {
                ret & !rs1_idx
            };
            let suppressed = (funct3 == 2 || funct3 == 3 || funct3 == 6 || funct3 == 7) && rs1_idx
                == 0;
            if suppressed {
                let nd_eff = if read_performed {
                    NdEffect::ReadOnly
                } else {
                    NdEffect::Untouched
                };
                spec_finish(s, mem, mmu, nd_eff, rd, ret, pc)
            } else if csr == 0x180 {
                let (mmu2, tw) = mmu.spec_write_sapt(write_val, mode);
                if tw != TrapReason::NoTrap {
                    ExecOutcome { trap: tw, tval: instr, mmu: mmu2, ..no_change }
                } else {
                    spec_finish(s, mem, mmu2, NdEffect::Untouched, rd, ret, pc)
                }
            } else if csr == 0x7c0 {
                let write_performed = !(ND::spec_should_ignore_writes_after_reads() && (funct3 == 2
                    || funct3 == 3 || funct3 == 6 || funct3 == 7));
                let nd_eff = if read_performed && write_performed {
                    NdEffect::ReadThenWrite(write_val)
                } else if read_performed {
                    NdEffect::ReadOnly
                } else if write_performed {
                    NdEffect::WriteOnly(write_val)
                } else {
                    NdEffect::Untouched
                };
                spec_finish(s, mem, mmu, nd_eff, rd, ret, pc)
            } else {
                let st = s.machine_mode_trap_data.state;
                let hd = s.machine_mode_trap_data.handling;
                let s2 = RiscV32State {
                    machine_mode_trap_data: ModeStatusAndTrapRegisters {
                        state: TrapStateRegisters {
                            status: if csr == 0x300 {
                                write_val
                            } else {
                                st.status
                            },
                            ie: if csr == 0x304 {
                                write_val
                            } else {
                                st.ie
                            },
                            ip: if csr == 0x344 {
                                write_val
                            } else {
                                st.ip
                            },
                        },
                        setup: TrapSetupRegisters {
                            tvec: if csr == 0x305 {
                                write_val
                            } else {
                                s.machine_mode_trap_data.setup.tvec
                            },
                        },
                        handling: TrapHandlingRegisters {
                            scratch: if csr == 0x340 {
                                write_val
                            } else {
                                hd.scratch
                            },
                            epc: if csr == 0x341 {
                                write_val
                            } else {
                                hd.epc
                            },
                            cause: if csr == 0x342 {
                                write_val
                            } else {
                                hd.cause
                            },
                            tval: if csr == 0x343 {
                                write_val
                            } else {
                                hd.tval
                            },
                        },
                    },
                    ..s
                };
                spec_finish(s2, mem, mmu, NdEffect::Untouched, rd, ret, pc)
            }
        }
    } else if funct3 == 0 {
        if csr == 0x105 {
            // WFI: latch and stop the cycle after advancing the counter.
            ExecOutcome {
                state: RiscV32State { extra_flags: ExtraFlags(s.extra_flags.0 | 4u32), ..s },
                mem,
                mmu,
                nd: NdEffect::Untouched,
                trap: TrapReason::NoTrap,
                tval: 0u32,
                pc: pc.wrapping_add(4u32),
                wfi: true,
            }
        } else if csr == 0x302 {
            // MRET: restore MIE from MPIE, set MPIE, clear MPP and MPRV,
            // drop to the stacked privilege and return to mepc.
            let status0 = s.machine_mode_trap_data.state.status;
            let prev = (status0 >> 11u32) & 3u32;
            let st2 = (status0 & !0x1800u32) & !0x20000u32;
            let mpie = (st2 >> 7u32) & 1u32;
            let st4 = ((st2 & !0x8u32) | (mpie << 3u32)) | 0x80u32;
            let s3 = RiscV32State {
                extra_flags: ExtraFlags((s.extra_flags.0 & !3u32) | prev),
                machine_mode_trap_data: ModeStatusAndTrapRegisters {
                    state: TrapStateRegisters { status: st4, ..s.machine_mode_trap_data.state },
                    ..s.machine_mode_trap_data
                },
                ..s
            };
            spec_finish(
                s3,
                mem,
                mmu,
                NdEffect::Untouched,
                0u32,
                0u32,
                s.machine_mode_trap_data.handling.epc.wrapping_sub(4u32),
            )
        } else if csr == 0 {
            let reason = if mode == Mode::Machine {
                TrapReason::EnvironmentCallFromMMode
            } else if mode == Mode::User {
                TrapReason::EnvironmentCallFromUMode
            } else {
                TrapReason::IllegalInstruction
            };
            ExecOutcome { trap: reason, tval: instr, ..no_change }
        } else if csr == 1 {
            ExecOutcome { trap: TrapReason::Breakpoint, tval: instr, ..no_change }
        } else {
            illegal
        }
    } else {
        illegal
    }
}

/// One instruction of the fetch/decode/execute path, before trap
/// dispatch. Assumes the wait-for-interrupt latch is clear and no
/// interrupt fired this cycle.
pub open spec fn spec_execute<
    M: MemorySource,
    TR: Tracer,
    ND: NonDeterminismCSRSource<M>,
    MMU: MMUImplementation<M, TR>,
>(s: RiscV32State, mem: Seq<u32>, mmu: MMU, nd: ND, delegations: bool) -> ExecOutcome<MMU> {
    let mode = s.extra_flags.spec_mode();
    let pc = s.pc;
    let no_change = ExecOutcome {
        state: s,
        mem,
        mmu,
        nd: NdEffect::Untouched,
        trap: TrapReason::NoTrap,
        tval: 0u32,
        pc,
        wfi: false,
    };
    let tr = mmu.spec_translate(mem, pc, mode, AccessType::Instruction);
    if tr.1 != TrapReason::NoTrap {
        ExecOutcome { trap: tr.1, ..no_change }
    } else if tr.0 & 3u64 != 0u64 {
        ExecOutcome { trap: TrapReason::InstructionAddressMisaligned, ..no_change }
    } else {
        let fetched = spec_mem_read(mem, tr.0, 4u32, AccessType::Instruction, true);
        if fetched.1 != TrapReason::NoTrap {
            ExecOutcome { trap: fetched.1, ..no_change }
        } else {
            let instr = fetched.0;
            let rd = spec_rd(instr);
            let rs1 = s.registers[spec_rs1_idx(instr) as int];
            let rs2 = s.registers[spec_rs2_idx(instr) as int];
            let opcode = instr & 0x7fu32;
            let illegal = ExecOutcome {
                trap: TrapReason::IllegalInstruction,
                tval: instr,
                ..no_change
            };
            if opcode == 0x37 {
                spec_finish(s, mem, mmu, NdEffect::Untouched, rd, instr & 0xffff_f000u32, pc)
            } else if opcode == 0x17 {
                spec_finish(
                    s,
                    mem,
                    mmu,
                    NdEffect::Untouched,
                    rd,
                    pc.wrapping_add(instr & 0xffff_f000u32),
                    pc,
                )
            } else if opcode == 0x6f {
                let rel = spec_sign_extend(spec_jtype_imm(instr), 21);
                let jmp = pc.wrapping_sub(4u32).wrapping_add(rel);
                if jmp & 3u32 != 0 {
                    ExecOutcome {
                        trap: TrapReason::InstructionAddressMisaligned,
                        tval: instr,
                        ..no_change
                    }
                } else {
                    spec_finish(s, mem, mmu, NdEffect::Untouched, rd, pc.wrapping_add(4u32), jmp)
                }
            } else if opcode == 0x67 {
                let imm = spec_sign_extend(instr >> 20u32, 12);
                let jmp = (rs1.wrapping_add(imm) & !1u32).wrapping_sub(4u32);
                if jmp & 3u32 != 0 {
                    ExecOutcome {
                        trap: TrapReason::InstructionAddressMisaligned,
                        tval: instr,
                        ..no_change
                    }
                } else {
                    spec_finish(s, mem, mmu, NdEffect::Untouched, rd, pc.wrapping_add(4u32), jmp)
                }
            } else if opcode == 0x63 {
                let imm = spec_sign_extend(spec_btype_imm(instr), 13);
                let dst = pc.wrapping_add(imm).wrapping_sub(4u32);
                match spec_branch_taken(spec_funct3(instr), rs1, rs2) {
                    Option::None => illegal,
                    Option::Some(taken) => {
                        if taken {
                            if dst & 3u32 != 0 {
                                ExecOutcome {
                                    trap: TrapReason::InstructionAddressMisaligned,
                                    tval: instr,
                                    ..no_change
                                }
                            } else {
                                spec_finish(s, mem, mmu, NdEffect::Untouched, 0u32, 0u32, dst)
                            }
                        } else {
                            spec_finish(s, mem, mmu, NdEffect::Untouched, 0u32, 0u32, pc)
                        }
                    },
                }
            } else if opcode == 0x03 {
                let imm = spec_sign_extend(instr >> 20u32, 12);
                let va = rs1.wrapping_add(imm);
                let trl = mmu.spec_translate(mem, va, mode, AccessType::MemLoad);
                if trl.1 != TrapReason::NoTrap {
                    ExecOutcome { trap: trl.1, tval: instr, ..no_change }
                } else {
                    let funct3 = spec_funct3(instr);
                    if funct3 == 0 || funct3 == 1 || funct3 == 2 || funct3 == 4 || funct3 == 5 {
                        let nb: u32 = if funct3 == 2 {
                            4
                        } else if funct3 == 1 || funct3 == 5 {
                            2
                        } else {
                            1
                        };
                        let loaded = spec_mem_read(mem, trl.0, nb, AccessType::MemLoad, true);
                        if loaded.1 != TrapReason::NoTrap {
                            ExecOutcome { trap: loaded.1, tval: instr, ..no_change }
                        } else {
                            let ret = if funct3 == 0 {
                                spec_sign_extend_8(loaded.0)
                            } else if funct3 == 1 {
                                spec_sign_extend_16(loaded.0)
                            } else if funct3 == 2 {
                                loaded.0
                            } else if funct3 == 4 {
                                loaded.0 & 0xffu32
                            } else {
                                loaded.0 & 0xffffu32
                            };
                            spec_finish(s, mem, mmu, NdEffect::Untouched, rd, ret, pc)
                        }
                    } else {
                        illegal
                    }
                }
            } else if opcode == 0x23 {
                let imm = spec_sign_extend(spec_stype_imm(instr), 12);
                let va = imm.wrapping_add(rs1);
                let trs = mmu.spec_translate(mem, va, mode, AccessType::MemStore);
                if trs.1 != TrapReason::NoTrap {
                    ExecOutcome { trap: trs.1, tval: instr, ..no_change }
                } else {
                    let funct3 = spec_funct3(instr);
                    if funct3 == 0 || funct3 == 1 || funct3 == 2 {
                        let nb: u32 = if funct3 == 0 {
                            1
                        } else if funct3 == 1 {
                            2
                        } else {
                            4
                        };
                        let written = spec_mem_write(mem, trs.0, rs2, nb, true);
                        if written.1 != TrapReason::NoTrap {
                            ExecOutcome { trap: written.1, tval: instr, ..no_change }
                        } else {
                            spec_finish(s, written.0, mmu, NdEffect::Untouched, 0u32, 0u32, pc)
                        }
                    } else {
                        illegal
                    }
                }
            } else if opcode == 0x13 || opcode == 0x33 {
                let op2 = if instr & 0x20u32 != 0 {
                    rs2
                } else {
                    spec_sign_extend(instr >> 20u32, 12)
                };
                match spec_alu(instr, rs1, op2) {
                    Option::None => illegal,
                    Option::Some(v) => spec_finish(s, mem, mmu, NdEffect::Untouched, rd, v, pc),
                }
            } else if opcode == 0x73 {
                spec_system::<M, TR, ND, MMU>(s, mem, mmu, nd, instr, rs1, pc, mode, delegations)
            } else {
                illegal
            }
        }
    }
}

/// What one full cycle does: the timer ticks; a pending enabled timer
/// interrupt preempts execution and vectors to the handler; a latched
/// wait-for-interrupt skips execution; otherwise one instruction runs and
/// a synchronous trap, if raised, vectors to the handler with all other
/// architectural effects discarded.
pub open spec fn spec_cycle_outcome<
    M: MemorySource,
    TR: Tracer,
    ND: NonDeterminismCSRSource<M>,
    MMU: MMUImplementation<M, TR>,
>(s: RiscV32State, mem: Seq<u32>, mmu: MMU, nd: ND, delegations: bool) -> CycleOutcome<MMU> {
    let t = spec_tick(s);
    let mode = t.extra_flags.spec_mode();
    if spec_interrupt_pending(t) {
        let t1 = RiscV32State { extra_flags: ExtraFlags(t.extra_flags.0 & !4u32), ..t };
        let t2 = spec_trap_csrs(
            t1,
            InterruptReason::MachineTimerInterrupt.spec_register_value(),
            0u32,
            t1.pc,
        );
        CycleOutcome {
            state: RiscV32State {
                pc: t1.machine_mode_trap_data.setup.tvec,
                sapt: mmu.spec_read_sapt(mode),
                ..t2
            },
            mem,
            mmu,
            nd: NdEffect::Untouched,
        }
    } else if t.extra_flags.0 & 4u32 != 0 {
        CycleOutcome { state: t, mem, mmu, nd: NdEffect::Untouched }
    } else {
        let e = spec_execute::<M, TR, ND, MMU>(t, mem, mmu, nd, delegations);
        if e.trap != TrapReason::NoTrap {
            let entered = spec_trap_csrs(e.state, e.trap.spec_register_value(), e.tval, e.pc);
            CycleOutcome {
                state: RiscV32State {
                    pc: e.state.machine_mode_trap_data.setup.tvec,
                    sapt: e.mmu.spec_read_sapt(mode),
                    ..entered
                },
                mem: e.mem,
                mmu: e.mmu,
                nd: e.nd,
            }
        } else if e.wfi {
            CycleOutcome {
                state: RiscV32State { pc: e.pc, ..e.state },
                mem: e.mem,
                mmu: e.mmu,
                nd: e.nd,
            }
        } else {
            CycleOutcome {
                state: RiscV32State {
                    pc: e.pc,
                    sapt: e.mmu.spec_read_sapt(mode),
                    ..e.state
                },
                mem: e.mem,
                mmu: e.mmu,
                nd: e.nd,
            }
        }
    }
}

impl RiscV32State {
    /// Read the first source register, observed by the tracer.
    pub fn get_first_register<TR: Tracer>(
        &self,
        reg_idx: u32,
        proc_cycle: u32,
        cycle_timestamp: u32,
        tracer: &mut TR,
    ) -> (r: u32)
        requires
            reg_idx < 32,
        ensures
            r == self.registers[reg_idx as int],
    {
        let res = self.registers[reg_idx as usize];
        tracer.trace_rs1_read(reg_idx, res, proc_cycle, cycle_timestamp);
        res
    }

    /// Read the second source register, observed by the tracer.
    pub fn get_second_register<TR: Tracer>(
        &self,
        reg_idx: u32,
        proc_cycle: u32,
        cycle_timestamp: u32,
        tracer: &mut TR,
    ) -> (r: u32)
        requires
            reg_idx < 32,
        ensures
            r == self.registers[reg_idx as int],
    {
        let res = self.registers[reg_idx as usize];
        tracer.trace_rs2_read(reg_idx, res, proc_cycle, cycle_timestamp);
        res
    }

    /// Write the destination register, observed by the tracer with both
    /// the pre-image and the written value; a write to register 0 is
    /// silently dropped.
    pub fn set_register<TR: Tracer>(
        &mut self,
        reg_idx: u32,
        value: u32,
        proc_cycle: u32,
        cycle_timestamp: u32,
        tracer: &mut TR,
    )
        requires
            reg_idx < 32,
        ensures
            *final(self) == (RiscV32State {
                registers: spec_reg_update(old(self).registers, reg_idx, value),
                ..*old(self)
            }),
    {
        let read_value = self.registers[reg_idx as usize];
        if reg_idx != 0 {
            self.registers[reg_idx as usize] = value;
            proof {
                vstd::array::axiom_spec_array_update(old(self).registers, reg_idx as int, value);
                vstd::array::axiom_array_ext_equal(
                    self.registers,
                    vstd::array::spec_array_update(old(self).registers, reg_idx as int, value),
                );
                assert(self.registers@ =~= vstd::array::spec_array_update(
                    old(self).registers,
                    reg_idx as int,
                    value,
                )@);
            }
        }
        tracer.trace_rd_write(reg_idx, read_value, value, proc_cycle, cycle_timestamp);
    }

    /// Record a trap in the handling CSRs, stack MIE into MPIE and enter
    /// machine mode; hands back the trap-vector address.
    fn apply_trap_entry(&mut self, cause: u32, tval: u32, epc: u32) -> (new_pc: u32)
        ensures
            *final(self) == spec_trap_csrs(*old(self), cause, tval, epc),
            new_pc == old(self).machine_mode_trap_data.setup.tvec,
    {
        self.machine_mode_trap_data.handling.cause = cause;
        self.machine_mode_trap_data.handling.tval = tval;
        self.machine_mode_trap_data.handling.epc = epc;
        let mie = MStatusRegister::mie_aligned_bit(self.machine_mode_trap_data.state.status);
        proof {
            lemma_mask1_le1(self.machine_mode_trap_data.state.status >> 3u32);
        }
        let mut st = self.machine_mode_trap_data.state.status;
        MStatusRegister::set_mpie_to_value(&mut st, mie);
        self.machine_mode_trap_data.state.status = st;
        self.extra_flags.set_mode(Mode::Machine);
        self.machine_mode_trap_data.setup.tvec
    }

    /// Fetch, decode and execute one instruction, with every register,
    /// memory, CSR and oracle-port effect applied; hands back the trap
    /// raised (with its `tval`), the next program counter and whether the
    /// instruction was WFI. Trap dispatch is the caller's.
    #[verifier::rlimit(100)]
    #[verifier::spinoff_prover]
    fn execute_instruction<
        M: MemorySource,
        TR: Tracer,
        ND: NonDeterminismCSRSource<M>,
        MMU: MMUImplementation<M, TR>,
        const SUPPORT_DELEGATIONS: bool,
    >(
        &mut self,
        memory_source: &mut M,
        tracer: &mut TR,
        mmu: &mut MMU,
        non_determinism_source: &mut ND,
        proc_cycle: u32,
        cycle_timestamp: u32,
    ) -> (res: (TrapReason, u32, u32, bool))
        requires
            SUPPORT_DELEGATIONS ==> spec_delegation_abi_ok::<M, TR, MMU>(
                *old(self),
                old(memory_source)@,
                *old(mmu),
            ),
        ensures
            ({
                let e = spec_execute::<M, TR, ND, MMU>(
                    *old(self),
                    old(memory_source)@,
                    *old(mmu),
                    *old(non_determinism_source),
                    SUPPORT_DELEGATIONS,
                );
                &&& *final(self) == e.state
                &&& final(memory_source)@ == e.mem
                &&& *final(mmu) == e.mmu
                &&& nd_effect_rel::<M, ND>(
                    e.nd,
                    e.mem,
                    *old(non_determinism_source),
                    *final(non_determinism_source),
                )
                &&& res == (e.trap, e.tval, e.pc, e.wfi)
            }),
    {
        let ghost self0 = *self;
        let ghost mem0 = memory_source@;
        let ghost mmu0 = *mmu;
        let ghost nd0 = *non_determinism_source;
        let current_privilege_mode = self.extra_flags.get_current_mode();
        let pc = self.pc;
        let mut trap = TrapReason::NoTrap;

        let instruction_phys_address = mmu.map_virtual_to_physical(
            pc,
            current_privilege_mode,
            AccessType::Instruction,
            memory_source,
            tracer,
            proc_cycle,
            &mut trap,
        );
        if trap.is_a_trap() {
            return (trap, 0, pc, false);
        }
        if instruction_phys_address & 3 != 0 {
            return (TrapReason::InstructionAddressMisaligned, 0, pc, false);
        }
        let instr = mem_read::<M, TR, true>(
            memory_source,
            tracer,
            instruction_phys_address,
            4,
            AccessType::Instruction,
            proc_cycle,
            cycle_timestamp,
            &mut trap,
        );
        if trap.is_a_trap() {
            return (trap, 0, pc, false);
        }
        let mut rd = get_rd(instr);
        let formal_rs1 = get_formal_rs1(instr);
        let formal_rs2 = get_formal_rs2(instr);
        let rs1 = self.get_first_register(formal_rs1, proc_cycle, cycle_timestamp, tracer);
        let rs2 = self.get_second_register(formal_rs2, proc_cycle, cycle_timestamp, tracer);
        let mut ret_val: u32 = 0;
        let mut pc_mod = pc;
        let opcode = instr & 0x7f;
        if opcode == 0x37 {
            // LUI
            ret_val = UTypeOpcode::imm(instr);
        } else if opcode == 0x17 {
            // AUIPC
            ret_val = pc.wrapping_add(UTypeOpcode::imm(instr));
        } else if opcode == 0x6f {
            // JAL
            let mut rel_addr = JTypeOpcode::imm(instr);
            sign_extend(&mut rel_addr, 21);
            ret_val = pc.wrapping_add(4);
            let jmp_addr = pc.wrapping_sub(4).wrapping_add(rel_addr);
            if jmp_addr & 3 != 0 {
                return (TrapReason::InstructionAddressMisaligned, instr, pc, false);
            }
            pc_mod = jmp_addr;
        } else if opcode == 0x67 {
            // JALR: the low bit of the target is forced to zero.
            let mut imm = ITypeOpcode::imm(instr);
            sign_extend(&mut imm, 12);
            ret_val = pc.wrapping_add(4);
            let jmp_addr = (rs1.wrapping_add(imm) & !1u32).wrapping_sub(4);
            if jmp_addr & 3 != 0 {
                return (TrapReason::InstructionAddressMisaligned, instr, pc, false);
            }
            pc_mod = jmp_addr;
        } else if opcode == 0x63 {
            // BRANCH
            let mut imm = BTypeOpcode::imm(instr);
            sign_extend(&mut imm, 13);
            rd = 0;
            let dst = pc.wrapping_add(imm).wrapping_sub(4);
            match branch_taken(BTypeOpcode::funct3(instr), rs1, rs2) {
                None => {
                    return (TrapReason::IllegalInstruction, instr, pc, false);
                },
                Some(taken) => {
                    if taken {
                        if dst & 3 != 0 {
                            return (TrapReason::InstructionAddressMisaligned, instr, pc, false);
                        }
                        pc_mod = dst;
                    }
                },
            }
        } else if opcode == 0x03 {
            // LOAD
            let mut imm = ITypeOpcode::imm(instr);
            sign_extend(&mut imm, 12);
            let virtual_address = rs1.wrapping_add(imm);
            let operand_phys_address = mmu.map_virtual_to_physical(
                virtual_address,
                current_privilege_mode,
                AccessType::MemLoad,
                memory_source,
                tracer,
                proc_cycle,
                &mut trap,
            );
            if trap.is_a_trap() {
                return (trap, instr, pc, false);
            }
            let funct3 = ITypeOpcode::funct3(instr);
            if funct3 == 0 || funct3 == 1 || funct3 == 2 || funct3 == 4 || funct3 == 5 {
                let num_bytes: u32 = if funct3 == 2 {
                    4
                } else if funct3 == 1 || funct3 == 5 {
                    2
                } else {
                    1
                };
                let operand = mem_read::<M, TR, true>(
                    memory_source,
                    tracer,
                    operand_phys_address,
                    num_bytes,
                    AccessType::MemLoad,
                    proc_cycle,
                    cycle_timestamp,
                    &mut trap,
                );
                if trap.is_a_trap() {
                    return (trap, instr, pc, false);
                }
                ret_val = if funct3 == 0 {
                    sign_extend_8(operand)
                } else if funct3 == 1 {
                    sign_extend_16(operand)
                } else if funct3 == 2 {
                    operand
                } else if funct3 == 4 {
                    zero_extend_8(operand)
                } else {
                    zero_extend_16(operand)
                };
            } else {
                return (TrapReason::IllegalInstruction, instr, pc, false);
            }
        } else if opcode == 0x23 {
            // STORE
            let mut imm = STypeOpcode::imm(instr);
            sign_extend(&mut imm, 12);
            let virtual_address = imm.wrapping_add(rs1);
            rd = 0;
            let operand_phys_address = mmu.map_virtual_to_physical(
                virtual_address,
                current_privilege_mode,
                AccessType::MemStore,
                memory_source,
                tracer,
                proc_cycle,
                &mut trap,
            );
            if trap.is_a_trap() {
                return (trap, instr, pc, false);
            }
            let funct3 = STypeOpcode::funct3(instr);
            if funct3 == 0 || funct3 == 1 || funct3 == 2 {
                let store_length: u32 = if funct3 == 0 {
                    1
                } else if funct3 == 1 {
                    2
                } else {
                    4
                };
                mem_write::<M, TR, true>(
                    memory_source,
                    tracer,
                    operand_phys_address,
                    rs2,
                    store_length,
                    proc_cycle,
                    cycle_timestamp,
                    &mut trap,
                );
                if trap.is_a_trap() {
                    return (trap, instr, pc, false);
                }
            } else {
                return (TrapReason::IllegalInstruction, instr, pc, false);
            }
        } else if opcode == 0x13 || opcode == 0x33 {
            // OP-IMM and OP
            let operand_2 = if instr & 0x20 != 0 {
                rs2
            } else {
                let mut imm = ITypeOpcode::imm(instr);
                sign_extend(&mut imm, 12);
                imm
            };
            match apply_op(instr, rs1, operand_2) {
                None => {
                    return (TrapReason::IllegalInstruction, instr, pc, false);
                },
                Some(v) => {
                    ret_val = v;
                },
            }
        } else if opcode == 0x73 {
            // SYSTEM: CSR accesses and environment instructions.
            let funct3 = ITypeOpcode::funct3(instr);
            let csr_number = ITypeOpcode::imm(instr);
            if (csr_number >> 8) & 3 > current_privilege_mode.as_register_value() {
                return (TrapReason::IllegalInstruction, instr, pc, false);
            }
            if funct3 & 3 != 0 {
                let rs1_as_imm = ITypeOpcode::rs1(instr);
                if SUPPORT_DELEGATIONS && csr_number >= NON_DETERMINISM_CSR + 1 && csr_number
                    <= NON_DETERMINISM_CSR + 6 {
                    // Reserved delegation window: the read delivers zero;
                    // an unsuppressed write runs the kernel its index
                    // names, under the ABI this engine's precondition
                    // demands of the host.
                    let write_val = if funct3 == 1 || funct3 == 2 {
                        rs1
                    } else if funct3 == 5 || funct3 == 6 {
                        rs1_as_imm
                    } else {
                        0
                    };
                    let suppressed = (funct3 == 2 || funct3 == 3 || funct3 == 6 || funct3 == 7)
                        && rs1_as_imm == 0;
                    if !suppressed {
                        if csr_number == NON_DETERMINISM_CSR + 1 {
                            crate::delegations::blake2s::blake2s_round_function::<M, TR, false>(
                                memory_source,
                                tracer,
                                write_val,
                                &mut trap,
                                proc_cycle,
                                cycle_timestamp,
                            );
                        } else if csr_number == NON_DETERMINISM_CSR + 2 {
                            crate::delegations::blake2_round_function::blake2_round_function(
                                memory_source,
                                tracer,
                                write_val,
                                &mut trap,
                                proc_cycle,
                                cycle_timestamp,
                            );
                        } else if csr_number == NON_DETERMINISM_CSR + 3 {
                            crate::delegations::blake2_round_function_with_final_xor::blake2_round_function_with_xor(
                                memory_source,
                                tracer,
                                write_val,
                                &mut trap,
                                proc_cycle,
                                cycle_timestamp,
                            );
                        } else if csr_number == NON_DETERMINISM_CSR + 4 {
                            crate::delegations::blake2_round_function_state_in_registers::blake2_round_function_with_state_in_registers(
                                self,
                                memory_source,
                                tracer,
                                write_val,
                                &mut trap,
                                proc_cycle,
                                cycle_timestamp,
                            );
                            proof {
                                lemma_blake2_regs_state_view(
                                    self0,
                                    mem0,
                                    spec_deleg_base(write_val),
                                );
                                vstd::array::axiom_array_ext_equal(
                                    self.registers,
                                    spec_blake2_regs_state(
                                        self0,
                                        mem0,
                                        spec_deleg_base(write_val),
                                    ).registers,
                                );
                                assert(self.registers@ =~= spec_blake2_regs_state(
                                    self0,
                                    mem0,
                                    spec_deleg_base(write_val),
                                ).registers@);
                            }
                        } else if csr_number == NON_DETERMINISM_CSR + 5 {
                            crate::delegations::mersenne_ext4_fma::mersenne_ext4_fma_impl(
                                self,
                                tracer,
                                write_val,
                                &mut trap,
                                proc_cycle,
                                cycle_timestamp,
                            );
                            proof {
                                lemma_mersenne_fma_state_view(self0);
                                vstd::array::axiom_array_ext_equal(
                                    self.registers,
                                    spec_mersenne_fma_state(self0).registers,
                                );
                                assert(self.registers@ =~= spec_mersenne_fma_state(
                                    self0,
                                ).registers@);
                            }
                        } else {
                            crate::delegations::poseidon2_provide_witness_and_compress::poseidon2_witness_and_compress(
                                memory_source,
                                non_determinism_source,
                                tracer,
                                write_val,
                                &mut trap,
                                proc_cycle,
                                cycle_timestamp,
                            );
                        }
                    }
                    self.set_register(rd, 0, proc_cycle, cycle_timestamp, tracer);
                    proof {
                        let e = spec_execute::<M, TR, ND, MMU>(
                            self0,
                            mem0,
                            mmu0,
                            nd0,
                            SUPPORT_DELEGATIONS,
                        );
                        if !suppressed && csr_number == NON_DETERMINISM_CSR + 6 {
                            assert(nd_effect_rel::<M, ND>(
                                e.nd,
                                e.mem,
                                nd0,
                                *non_determinism_source,
                            ));
                        }
                        assert(nd_effect_rel::<M, ND>(e.nd, e.mem, nd0, *non_determinism_source));
                    }
                    return (TrapReason::NoTrap, 0, pc.wrapping_add(4), false);
                }
                let known = csr_number == 0x180 || csr_number == 0x300 || csr_number == 0x304
                    || csr_number == 0x305 || csr_number == 0x340 || csr_number == 0x341
                    || csr_number == 0x342 || csr_number == 0x343 || csr_number == 0x344
                    || csr_number == 0x7c0;
                if !known {
                    return (TrapReason::IllegalInstruction, instr, pc, false);
                }
                let mut read_performed = false;
                ret_val = if csr_number == 0x180 {
                    mmu.read_sapt(current_privilege_mode, &mut trap)
                } else if csr_number == 0x300 {
                    self.machine_mode_trap_data.state.status
                } else if csr_number == 0x304 {
                    self.machine_mode_trap_data.state.ie
                } else if csr_number == 0x305 {
                    self.machine_mode_trap_data.setup.tvec
                } else if csr_number == 0x340 {
                    self.machine_mode_trap_data.handling.scratch
                } else if csr_number == 0x341 {
                    self.machine_mode_trap_data.handling.epc
                } else if csr_number == 0x342 {
                    self.machine_mode_trap_data.handling.cause
                } else if csr_number == 0x343 {
                    self.machine_mode_trap_data.handling.tval
                } else if csr_number == 0x344 {
                    self.machine_mode_trap_data.state.ip
                } else {
                    if ND::should_mock_reads_before_writes() && (funct3 == 1 || funct3 == 5) {
                        0
                    } else {
                        read_performed = true;
                        let v = non_determinism_source.read();
                        tracer.trace_non_determinism_read(v, proc_cycle, cycle_timestamp);
                        v
                    }
                };
                let ghost nd_mid = *non_determinism_source;
                let write_val = if funct3 == 1 {
                    rs1
                } else if funct3 == 2 {
                    ret_val | rs1
                } else if funct3 == 3 {
                    ret_val & !rs1
                } else if funct3 == 5 {
                    rs1_as_imm
                } else if funct3 == 6 {
                    ret_val | rs1_as_imm
                } else {
                    ret_val & !rs1_as_imm
                };
                // A set/clear form with a zero operand performs no write.
                let suppressed = (funct3 == 2 || funct3 == 3 || funct3 == 6 || funct3 == 7)
                    && rs1_as_imm == 0;
                if !suppressed {
                    if csr_number == 0x180 {
                        mmu.write_sapt(write_val, current_privilege_mode, &mut trap);
                        if trap.is_a_trap() {
                            return (trap, instr, pc, false);
                        }
                    } else if csr_number == 0x300 {
                        self.machine_mode_trap_data.state.status = write_val;
                    } else if csr_number == 0x304 {
                        self.machine_mode_trap_data.state.ie = write_val;
                    } else if csr_number == 0x305 {
                        self.machine_mode_trap_data.setup.tvec = write_val;
                    } else if csr_number == 0x340 {
                        self.machine_mode_trap_data.handling.scratch = write_val;
                    } else if csr_number == 0x341 {
                        self.machine_mode_trap_data.handling.epc = write_val;
                    } else if csr_number == 0x342 {
                        self.machine_mode_trap_data.handling.cause = write_val;
                    } else if csr_number == 0x343 {
                        self.machine_mode_trap_data.handling.tval = write_val;
                    } else if csr_number == 0x344 {
                        self.machine_mode_trap_data.state.ip = write_val;
                    } else {
                        if ND::should_ignore_writes_after_reads() && (funct3 == 2 || funct3 == 3
                            || funct3 == 6 || funct3 == 7) {
                        } else {
                            non_determinism_source.write_with_memory_access(
                                &*memory_source,
                                write_val,
                            );
                            tracer.trace_non_determinism_write(
                                write_val,
                                proc_cycle,
                                cycle_timestamp,
                            );
                            proof {
                                let e = spec_execute::<M, TR, ND, MMU>(
                                    self0,
                                    mem0,
                                    mmu0,
                                    nd0,
                                    SUPPORT_DELEGATIONS,
                                );
                                assert(e.mem == mem0);
                                assert(memory_source@ == mem0);
                                if read_performed {
                                    assert(nd0.read_rel(nd_mid) && nd_mid.write_rel(
                                        memory_source@,
                                        write_val,
                                        *non_determinism_source,
                                    ));
                                    assert(exists|mid: ND|
                                        #[trigger] nd0.read_rel(mid) && mid.write_rel(
                                            e.mem,
                                            write_val,
                                            *non_determinism_source,
                                        ));
                                    assert(e.nd == NdEffect::ReadThenWrite(write_val));
                                } else {
                                    assert(e.nd == NdEffect::WriteOnly(write_val));
                                }
                                assert(nd_effect_rel::<M, ND>(
                                    e.nd,
                                    e.mem,
                                    nd0,
                                    *non_determinism_source,
                                ));
                            }
                        }
                    }
                }
            } else if funct3 == 0 {
                rd = 0;
                if csr_number == 0x105 {
                    // WFI
                    self.extra_flags.set_wait_for_interrupt_bit();
                    return (TrapReason::NoTrap, 0, pc.wrapping_add(4), true);
                } else if csr_number == 0x302 {
                    // MRET
                    let previous_privilege = MStatusRegister::mpp(
                        self.machine_mode_trap_data.state.status,
                    );
                    let mut st = self.machine_mode_trap_data.state.status;
                    MStatusRegister::clear_mpp(&mut st);
                    MStatusRegister::clear_mprv(&mut st);
                    let mpie = MStatusRegister::mpie_aligned_bit(st);
                    proof {
                        lemma_mask1_le1(st >> 7u32);
                    }
                    MStatusRegister::set_mie_to_value(&mut st, mpie);
                    MStatusRegister::set_mpie(&mut st);
                    self.machine_mode_trap_data.state.status = st;
                    self.extra_flags.set_mode_raw(previous_privilege);
                    pc_mod = self.machine_mode_trap_data.handling.epc.wrapping_sub(4);
                } else if csr_number == 0 {
                    // ECALL
                    let reason = match current_privilege_mode {
                        Mode::Machine => TrapReason::EnvironmentCallFromMMode,
                        Mode::User => TrapReason::EnvironmentCallFromUMode,
                        _ => TrapReason::IllegalInstruction,
                    };
                    return (reason, instr, pc, false);
                } else if csr_number == 1 {
                    // EBREAK
                    return (TrapReason::Breakpoint, instr, pc, false);
                } else {
                    return (TrapReason::IllegalInstruction, instr, pc, false);
                }
            } else {
                return (TrapReason::IllegalInstruction, instr, pc, false);
            }
        } else {
            return (TrapReason::IllegalInstruction, instr, pc, false);
        }

        self.set_register(rd, ret_val, proc_cycle, cycle_timestamp, tracer);
        proof {
            let e = spec_execute::<M, TR, ND, MMU>(self0, mem0, mmu0, nd0, SUPPORT_DELEGATIONS);
            match e.nd {
                NdEffect::Untouched => {
                    assert(*non_determinism_source == nd0);
                },
                NdEffect::ReadOnly => {
                    assert(nd0.read_rel(*non_determinism_source));
                },
                NdEffect::WriteOnly(wv) => {
                    assert(nd0.write_rel(e.mem, wv, *non_determinism_source));
                },
                NdEffect::ReadThenWrite(wv) => {
                    assert(nd_effect_rel::<M, ND>(e.nd, e.mem, nd0, *non_determinism_source));
                },
                NdEffect::ReadChain(n) => {
                    assert(nd_effect_rel::<M, ND>(e.nd, e.mem, nd0, *non_determinism_source));
                },
            }
            assert(nd_effect_rel::<M, ND>(e.nd, e.mem, nd0, *non_determinism_source));
        }
        (TrapReason::NoTrap, 0, pc_mod.wrapping_add(4), false)
    }

    /// Run one cycle, with the cycle index also serving as the intra-cycle
    /// timestamp base.
    pub fn cycle<
        M: MemorySource,
        TR: Tracer,
        ND: NonDeterminismCSRSource<M>,
        MMU: MMUImplementation<M, TR>,
    >(
        &mut self,
        memory_source: &mut M,
        tracer: &mut TR,
        mmu: &mut MMU,
        non_determinism_source: &mut ND,
        proc_cycle: u32,
    )
        ensures
            ({
                let o = spec_cycle_outcome::<M, TR, ND, MMU>(
                    *old(self),
                    old(memory_source)@,
                    *old(mmu),
                    *old(non_determinism_source),
                    false,
                );
                &&& *final(self) == o.state
                &&& final(memory_source)@ == o.mem
                &&& *final(mmu) == o.mmu
                &&& nd_effect_rel::<M, ND>(
                    o.nd,
                    o.mem,
                    *old(non_determinism_source),
                    *final(non_determinism_source),
                )
            }),
            old(self).wf() ==> final(self).wf(),
    {
        self.cycle_ext(memory_source, tracer, mmu, non_determinism_source, proc_cycle, proc_cycle);
    }

    /// Run one cycle: tick the timer, inject a pending enabled timer
    /// interrupt, honour the wait-for-interrupt latch, and otherwise
    /// fetch, decode and execute one instruction, dispatching any
    /// synchronous trap to the handler vector. When delegation support
    /// is on, the reserved CSR window runs the kernels, under the ABI
    /// obligation of the precondition.
    #[verifier::rlimit(100)]
    #[verifier::spinoff_prover]
    fn cycle_run<
        M: MemorySource,
        TR: Tracer,
        ND: NonDeterminismCSRSource<M>,
        MMU: MMUImplementation<M, TR>,
        const SUPPORT_DELEGATIONS: bool,
    >(
        &mut self,
        memory_source: &mut M,
        tracer: &mut TR,
        mmu: &mut MMU,
        non_determinism_source: &mut ND,
        proc_cycle: u32,
        cycle_timestamp: u32,
    )
        requires
            SUPPORT_DELEGATIONS ==> spec_delegation_abi_ok::<M, TR, MMU>(
                spec_tick(*old(self)),
                old(memory_source)@,
                *old(mmu),
            ),
        ensures
            ({
                let o = spec_cycle_outcome::<M, TR, ND, MMU>(
                    *old(self),
                    old(memory_source)@,
                    *old(mmu),
                    *old(non_determinism_source),
                    SUPPORT_DELEGATIONS,
                );
                &&& *final(self) == o.state
                &&& final(memory_source)@ == o.mem
                &&& *final(mmu) == o.mmu
                &&& nd_effect_rel::<M, ND>(
                    o.nd,
                    o.mem,
                    *old(non_determinism_source),
                    *final(non_determinism_source),
                )
            }),
            old(self).wf() ==> final(self).wf(),
    {
        let ghost self0 = *self;
        let ghost mem0 = memory_source@;
        let ghost mmu0 = *mmu;
        let ghost nd0 = *non_determinism_source;
        tracer.at_cycle_start(&*self);
        self.timer = self.timer.wrapping_add(1);
        self.cycle_counter = self.cycle_counter.wrapping_add(1);
        if self.timer > self.timer_match {
            self.machine_mode_trap_data.state.ip = self.machine_mode_trap_data.state.ip | 0x80;
        } else {
            self.machine_mode_trap_data.state.ip = self.machine_mode_trap_data.state.ip & !0x80u32;
        }
        let status = self.machine_mode_trap_data.state.status;
        if (status >> 3) & 1 == 1 && self.machine_mode_trap_data.state.ie & 0x80 != 0
            && self.machine_mode_trap_data.state.ip & 0x80 != 0 {
            // Machine timer interrupt: wake and vector to the handler.
            let mode0 = self.extra_flags.get_current_mode();
            self.extra_flags.clear_wait_for_interrupt_bit();
            let epc = self.pc;
            let cause = InterruptReason::MachineTimerInterrupt.as_register_value();
            let new_pc = self.apply_trap_entry(cause, 0, epc);
            self.pc = new_pc;
            let mut t = TrapReason::NoTrap;
            self.sapt = mmu.read_sapt(mode0, &mut t);
            tracer.at_cycle_end(&*self);
            proof {
                if self0.wf() {
                    lemma_cycle_keeps_register_zero::<M, TR, ND, MMU>(self0, mem0, mmu0, nd0, SUPPORT_DELEGATIONS);
                }
            }
            return ;
        }
        if self.extra_flags.get_wait_for_interrupt() != 0 {
            tracer.at_cycle_end(&*self);
            proof {
                if self0.wf() {
                    lemma_cycle_keeps_register_zero::<M, TR, ND, MMU>(self0, mem0, mmu0, nd0, SUPPORT_DELEGATIONS);
                }
            }
            return ;
        }
        let current_privilege_mode = self.extra_flags.get_current_mode();
        let (trap, tval, pc_res, wfi) = self.execute_instruction::<
            M,
            TR,
            ND,
            MMU,
            SUPPORT_DELEGATIONS,
        >(memory_source, tracer, mmu, non_determinism_source, proc_cycle, cycle_timestamp);
        if wfi {
            self.pc = pc_res;
            tracer.at_cycle_end(&*self);
            proof {
                if self0.wf() {
                    lemma_cycle_keeps_register_zero::<M, TR, ND, MMU>(self0, mem0, mmu0, nd0, SUPPORT_DELEGATIONS);
                }
            }
            return ;
        }
        let mut pc = pc_res;
        if trap.is_a_trap() {
            let cause = trap.as_register_value();
            let new_pc = self.apply_trap_entry(cause, tval, pc);
            pc = new_pc;
        }
        self.pc = pc;
        let mut t = TrapReason::NoTrap;
        self.sapt = mmu.read_sapt(current_privilege_mode, &mut t);
        tracer.at_cycle_end(&*self);
        proof {
            if self0.wf() {
                lemma_cycle_keeps_register_zero::<M, TR, ND, MMU>(self0, mem0, mmu0, nd0, SUPPORT_DELEGATIONS);
            }
        }
    }

    /// Run one cycle with the standard CSR bank and the oracle port; the
    /// reserved delegation window raises illegal-instruction here (see
    /// `cycle_with_delegations` for the delegating engine).
    pub fn cycle_ext<
        M: MemorySource,
        TR: Tracer,
        ND: NonDeterminismCSRSource<M>,
        MMU: MMUImplementation<M, TR>,
    >(
        &mut self,
        memory_source: &mut M,
        tracer: &mut TR,
        mmu: &mut MMU,
        non_determinism_source: &mut ND,
        proc_cycle: u32,
        cycle_timestamp: u32,
    )
        ensures
            ({
                let o = spec_cycle_outcome::<M, TR, ND, MMU>(
                    *old(self),
                    old(memory_source)@,
                    *old(mmu),
                    *old(non_determinism_source),
                    false,
                );
                &&& *final(self) == o.state
                &&& final(memory_source)@ == o.mem
                &&& *final(mmu) == o.mmu
                &&& nd_effect_rel::<M, ND>(
                    o.nd,
                    o.mem,
                    *old(non_determinism_source),
                    *final(non_determinism_source),
                )
            }),
            old(self).wf() ==> final(self).wf(),
    {
        self.cycle_run::<M, TR, ND, MMU, false>(
            memory_source,
            tracer,
            mmu,
            non_determinism_source,
            proc_cycle,
            cycle_timestamp,
        );
    }

    /// Run one cycle with the reserved CSR window 0x7C1..0x7C6 routed to
    /// the delegation kernels. The precondition is the guest-host ABI of
    /// the kernels: an access that breaks it is a fatal host invariant,
    /// not a guest trap, so the caller must rule it out.
    pub fn cycle_with_delegations<
        M: MemorySource,
        TR: Tracer,
        ND: NonDeterminismCSRSource<M>,
        MMU: MMUImplementation<M, TR>,
    >(
        &mut self,
        memory_source: &mut M,
        tracer: &mut TR,
        mmu: &mut MMU,
        non_determinism_source: &mut ND,
        proc_cycle: u32,
    )
        requires
            spec_delegation_abi_ok::<M, TR, MMU>(
                spec_tick(*old(self)),
                old(memory_source)@,
                *old(mmu),
            ),
        ensures
            ({
                let o = spec_cycle_outcome::<M, TR, ND, MMU>(
                    *old(self),
                    old(memory_source)@,
                    *old(mmu),
                    *old(non_determinism_source),
                    true,
                );
                &&& *final(self) == o.state
                &&& final(memory_source)@ == o.mem
                &&& *final(mmu) == o.mmu
                &&& nd_effect_rel::<M, ND>(
                    o.nd,
                    o.mem,
                    *old(non_determinism_source),
                    *final(non_determinism_source),
                )
            }),
            old(self).wf() ==> final(self).wf(),
    {
        self.cycle_run::<M, TR, ND, MMU, true>(
            memory_source,
            tracer,
            mmu,
            non_determinism_source,
            proc_cycle,
            proc_cycle,
        );
    }
}

/// Register 0 reads as zero after every cycle, regardless of any write
/// that nominally targeted it: the cycle outcome of a state whose
/// register 0 is zero keeps it zero.
#[verifier::rlimit(100)]
pub proof fn lemma_cycle_keeps_register_zero<
    M: MemorySource,
    TR: Tracer,
    ND: NonDeterminismCSRSource<M>,
    MMU: MMUImplementation<M, TR>,
>(s: RiscV32State, mem: Seq<u32>, mmu: MMU, nd: ND, delegations: bool)
    requires
        s.wf(),
    ensures
        spec_cycle_outcome::<M, TR, ND, MMU>(s, mem, mmu, nd, delegations).state.wf(),
{
    let t = spec_tick(s);
    if !spec_interrupt_pending(t) && t.extra_flags.0 & 4u32 == 0 {
        let mode = t.extra_flags.spec_mode();
        let tr = mmu.spec_translate(mem, t.pc, mode, AccessType::Instruction);
        let fetched = spec_mem_read(mem, tr.0, 4u32, AccessType::Instruction, true);
        let instr = fetched.0;
        lemma_mask5_lt32(instr >> 7u32);
        let rs1_idx = spec_rs1_idx(instr);
        let write_val = spec_delegation_write_val(instr, t.registers[rs1_idx as int]);
        lemma_blake2_regs_state_view(t, mem, spec_deleg_base(write_val));
        lemma_mersenne_fma_state_view(t);
        let e = spec_execute::<M, TR, ND, MMU>(t, mem, mmu, nd, delegations);
        assert(e.state.registers[0] == 0);
    }
}

proof fn lemma_add4_keeps_alignment(x: u32)
    by (bit_vector)
    ensures
        x & 3u32 == 0 ==> ((x + 4) as u32) & 3u32 == 0,
        x & 3u32 == 0 ==> ((x + 4 - 0x1_0000_0000) as u32) & 3u32 == 0,
{
}

/// A cycle that raises no trap and no interrupt leaves the program
/// counter 4-byte aligned, provided it started aligned and, if the
/// instruction was a return from trap, the saved exception address was
/// aligned (a return to a misaligned `mepc` lands misaligned without
/// trapping until the next fetch).
#[verifier::rlimit(100)]
pub proof fn lemma_pc_aligned_without_trap<
    M: MemorySource,
    TR: Tracer,
    ND: NonDeterminismCSRSource<M>,
    MMU: MMUImplementation<M, TR>,
>(s: RiscV32State, mem: Seq<u32>, mmu: MMU, nd: ND, delegations: bool)
    requires
        s.pc & 3u32 == 0,
        !spec_interrupt_pending(spec_tick(s)),
        ({
            let t = spec_tick(s);
            t.extra_flags.0 & 4u32 != 0 || {
                let e = spec_execute::<M, TR, ND, MMU>(t, mem, mmu, nd, delegations);
                let instr = spec_mem_read(
                    mem,
                    mmu.spec_translate(mem, t.pc, t.extra_flags.spec_mode(), AccessType::Instruction).0,
                    4u32,
                    AccessType::Instruction,
                    true,
                ).0;
                e.trap == TrapReason::NoTrap && ((instr & 0x7fu32 == 0x73 && spec_funct3(instr)
                    == 0 && instr >> 20u32 == 0x302) ==> s.machine_mode_trap_data.handling.epc
                    & 3u32 == 0)
            }
        }),
    ensures
        spec_cycle_outcome::<M, TR, ND, MMU>(s, mem, mmu, nd, delegations).state.pc & 3u32 == 0,
{
    let t = spec_tick(s);
    lemma_add4_keeps_alignment(t.pc);
    if t.extra_flags.0 & 4u32 == 0 {
        let mode = t.extra_flags.spec_mode();
        let tr = mmu.spec_translate(mem, t.pc, mode, AccessType::Instruction);
        let fetched = spec_mem_read(mem, tr.0, 4u32, AccessType::Instruction, true);
        let instr = fetched.0;
        let pc = t.pc;
        let rs1 = t.registers[spec_rs1_idx(instr) as int];
        let jal_jmp = pc.wrapping_sub(4u32).wrapping_add(spec_sign_extend(spec_jtype_imm(instr), 21));
        let jalr_jmp = (rs1.wrapping_add(spec_sign_extend(instr >> 20u32, 12)) & !1u32).wrapping_sub(4u32);
        let branch_dst = pc.wrapping_add(spec_sign_extend(spec_btype_imm(instr), 13)).wrapping_sub(4u32);
        let mret_pc = s.machine_mode_trap_data.handling.epc.wrapping_sub(4u32);
        lemma_add4_keeps_alignment(jal_jmp);
        lemma_add4_keeps_alignment(jalr_jmp);
        lemma_add4_keeps_alignment(branch_dst);
        lemma_add4_keeps_alignment(mret_pc);
        lemma_sub4_keeps_alignment(s.machine_mode_trap_data.handling.epc);
    }
}

proof fn lemma_sub4_keeps_alignment(x: u32)
    by (bit_vector)
    ensures
        x & 3u32 == 0 ==> ((x - 4) as u32) & 3u32 == 0,
        x & 3u32 == 0 ==> ((x - 4 + 0x1_0000_0000) as u32) & 3u32 == 0,
{
}

/// An instruction that raises a synchronous trap changes nothing but the
/// trap plumbing: the registers, the memory, `mie`, `mip`, `mtvec`,
/// `mscratch` and the timer match are left as they were (the timer free-
/// runs every cycle); `mstatus` changes only by copying MIE into MPIE;
/// and `pc`, `mepc`, `mcause`, `mtval` and the mode take the trap-entry
/// values.
#[verifier::rlimit(100)]
pub proof fn lemma_sync_trap_idempotence<
    M: MemorySource,
    TR: Tracer,
    ND: NonDeterminismCSRSource<M>,
    MMU: MMUImplementation<M, TR>,
>(s: RiscV32State, mem: Seq<u32>, mmu: MMU, nd: ND, delegations: bool)
    requires
        !spec_interrupt_pending(spec_tick(s)),
        spec_tick(s).extra_flags.0 & 4u32 == 0,
        spec_execute::<M, TR, ND, MMU>(spec_tick(s), mem, mmu, nd, delegations).trap
            != TrapReason::NoTrap,
    ensures
        ({
            let t = spec_tick(s);
            let e = spec_execute::<M, TR, ND, MMU>(t, mem, mmu, nd, delegations);
            let o = spec_cycle_outcome::<M, TR, ND, MMU>(s, mem, mmu, nd, delegations);
            let status = s.machine_mode_trap_data.state.status;
            &&& o.mem == mem
            &&& o.nd == NdEffect::Untouched
            &&& o.state.registers == s.registers
            &&& o.state.machine_mode_trap_data.state.ie == s.machine_mode_trap_data.state.ie
            &&& o.state.machine_mode_trap_data.state.ip == t.machine_mode_trap_data.state.ip
            &&& o.state.machine_mode_trap_data.setup.tvec == s.machine_mode_trap_data.setup.tvec
            &&& o.state.machine_mode_trap_data.handling.scratch
                == s.machine_mode_trap_data.handling.scratch
            &&& o.state.timer_match == s.timer_match
            &&& o.state.machine_mode_trap_data.state.status == (status & !0x80u32) | (((status
                >> 3u32) & 1u32) << 7u32)
            &&& o.state.pc == s.machine_mode_trap_data.setup.tvec
            &&& o.state.machine_mode_trap_data.handling.epc == s.pc
            &&& o.state.machine_mode_trap_data.handling.cause == e.trap.spec_register_value()
            &&& o.state.machine_mode_trap_data.handling.tval == e.tval
            &&& o.state.extra_flags.0 == (s.extra_flags.0 & !3u32) | 3u32
        }),
{
    let t = spec_tick(s);
    let e = spec_execute::<M, TR, ND, MMU>(t, mem, mmu, nd, delegations);
    assert(e.state == t);
    assert(e.mem == mem);
    assert(e.pc == s.pc);
}

/// Relies on rand::random: draws one 32-bit word from the thread-local
/// generator. Nothing can be promised of the value.
#[verifier::external_body]
fn random_u32() -> u32 {
    rand::random()
}

proof fn lemma_random_state_bits(m: u32, x: u32)
    by (bit_vector)
    ensures
        ((0u32 & !3u32) | m) & 3u32 == m & 3u32,
        ((0u32 & !3u32) | m) & 4u32 == m & 4u32,
        (((0u32 & !3u32) | m) | 4u32) & 3u32 == m & 3u32,
        (((0u32 & !3u32) | m) | 4u32) & 4u32 == 4u32,
        m == 0 || m == 3 ==> m & 3u32 == m && m & 4u32 == 0,
        (x & 0xffff_fffcu32) & 3u32 == 0,
        ((x & !0x1800u32) | 0x1800u32) >> 11u32 & 3u32 == 3u32,
{
}

impl RiscV32State {
    /// A state with randomised registers and trap CSRs, for differential
    /// runs: register 0 stays zero, the requested mode and halt latch are
    /// set, the stacked privilege in `mstatus` is machine, and the saved
    /// exception address is aligned. Everything else is an arbitrary
    /// draw.
    pub fn new_random(initial_pc: u32, is_user_mode: bool, is_halted: bool) -> (r: Self)
        ensures
            r.wf(),
            r.pc == initial_pc,
            r.extra_flags.spec_mode() == (if is_user_mode {
                Mode::User
            } else {
                Mode::Machine
            }),
            (r.extra_flags.spec_wait_for_interrupt() != 0) == is_halted,
            r.cycle_counter == 0,
            r.timer == 0,
            r.timer_match == u64::MAX,
            (r.machine_mode_trap_data.state.status >> 11u32) & 3u32 == 3,
            r.machine_mode_trap_data.handling.epc & 3u32 == 0,
    {
        let mode = if is_user_mode {
            Mode::User
        } else {
            Mode::Machine
        };
        let mut extra_flags = ExtraFlags(0u32);
        extra_flags.set_mode(mode);
        if is_halted {
            extra_flags.set_wait_for_interrupt_bit();
        }
        let raw_status = random_u32();
        let mut status = raw_status;
        MStatusRegister::set_mpp_to_machine(&mut status);
        let raw_epc = random_u32();
        let machine_mode_trap_data = ModeStatusAndTrapRegisters {
            state: TrapStateRegisters { status, ie: random_u32(), ip: random_u32() },
            setup: TrapSetupRegisters { tvec: random_u32() },
            handling: TrapHandlingRegisters {
                scratch: random_u32(),
                epc: raw_epc & 0xffff_fffc,
                cause: random_u32(),
                tval: random_u32(),
            },
        };
        let mut registers = [0u32;32];
        let mut i: usize = 1;
        while i < 32
            invariant
                1 <= i <= 32,
                registers@[0] == 0u32,
            decreases 32 - i,
        {
            registers[i] = random_u32();
            i = i + 1;
        }
        proof {
            lemma_random_state_bits(mode.spec_register_value(), raw_status);
            lemma_random_state_bits(mode.spec_register_value(), raw_epc);
        }
        RiscV32State {
            registers,
            pc: initial_pc,
            extra_flags,
            cycle_counter: 0u64,
            timer: 0u64,
            timer_match: u64::MAX,
            machine_mode_trap_data,
            sapt: random_u32(),
        }
    }
}

proof fn lemma_initial_flags()
    by (bit_vector)
    ensures
        (0u32 & !3u32) | 3u32 == 3u32,
        ((0u32 & !3u32) | 3u32) & 3u32 == 3u32,
        ((0u32 & !3u32) | 3u32) & 4u32 == 0u32,
{
}

} // verus!

