use vstd::prelude::*;

pub mod blake2_mixing;
pub mod blake2_round_function;
pub mod blake2_round_function_state_in_registers;
pub mod blake2_round_function_with_final_xor;
pub mod blake2s;
pub mod mersenne_ext4_fma;
pub mod poseidon2_provide_witness_and_compress;

use crate::abstractions::csr_processor::CustomCSRProcessor;
use crate::abstractions::memory::AccessType;
use crate::abstractions::memory::MemorySource;
use crate::abstractions::non_determinism::NonDeterminismCSRSource;
use crate::abstractions::tracer::Tracer;
use crate::cycle::state::NON_DETERMINISM_CSR;
use crate::cycle::state::RiscV32State;
use crate::cycle::status_registers::TrapReason;
use crate::mmu::MMUImplementation;

verus! {

/// Low sixteen bits of a delegation operand must be clear: the high
/// sixteen bits are the memory offset of the ABI region.
pub proof fn lemma_deleg_offset(rs1: u32)
    by (bit_vector)
    requires
        rs1 & 0xffffu32 == 0,
    ensures
        rs1 & 0xffff_0000u32 == rs1,
        rs1 % 4 == 0,
{
}

/// Word index of the start of the ABI region named by a delegation
/// operand.
pub open spec fn spec_deleg_base(rs1: u32) -> int {
    (rs1 as int) / 4
}

/// Whether a word is a one-hot selector of one of the ten permutations.
pub open spec fn spec_is_perm_mask(mask: u32) -> bool {
    mask == 1 || mask == 2 || mask == 4 || mask == 8 || mask == 16 || mask == 32 || mask == 64
        || mask == 128 || mask == 256 || mask == 512
}

/// The permutation a one-hot selector names.
pub open spec fn spec_perm_index(mask: u32) -> int {
    if mask == 1 {
        0
    } else if mask == 2 {
        1
    } else if mask == 4 {
        2
    } else if mask == 8 {
        3
    } else if mask == 16 {
        4
    } else if mask == 32 {
        5
    } else if mask == 64 {
        6
    } else if mask == 128 {
        7
    } else if mask == 256 {
        8
    } else {
        9
    }
}

pub fn perm_index(mask: u32) -> (r: usize)
    requires
        spec_is_perm_mask(mask),
    ensures
        r as int == spec_perm_index(mask),
        r < 10,
{
    if mask == 1 {
        0
    } else if mask == 2 {
        1
    } else if mask == 4 {
        2
    } else if mask == 8 {
        3
    } else if mask == 16 {
        4
    } else if mask == 32 {
        5
    } else if mask == 64 {
        6
    } else if mask == 128 {
        7
    } else if mask == 256 {
        8
    } else {
        9
    }
}

/// The memory image with `words` stored starting at word index `base`.
pub open spec fn spec_store_words(mem: Seq<u32>, base: int, words: Seq<u32>) -> Seq<u32> {
    Seq::new(
        mem.len(),
        |i: int|
            if base <= i < base + words.len() {
                words[i - base]
            } else {
                mem[i]
            },
    )
}

/// Read the word at slot `idx` of a delegation ABI region.
pub fn region_read<M: MemorySource>(
    memory_source: &M,
    mem_offset: u32,
    idx: u32,
    trap: &mut TrapReason,
) -> (r: u32)
    requires
        *old(trap) == TrapReason::NoTrap,
        mem_offset % 4 == 0,
        idx <= 64,
        (mem_offset as int) / 4 + idx < memory_source@.len(),
    ensures
        *final(trap) == TrapReason::NoTrap,
        r == memory_source@[(mem_offset as int) / 4 + idx],
{
    let address = mem_offset as u64 + (idx as u64) * 4;
    proof {
        assert(address % 4 == 0);
        assert(address / 4 == (mem_offset as int) / 4 + idx);
    }
    memory_source.get(address, AccessType::RegWrite, trap)
}

/// Write the word at slot `idx` of a delegation ABI region.
pub fn region_write<M: MemorySource>(
    memory_source: &mut M,
    mem_offset: u32,
    idx: u32,
    value: u32,
    trap: &mut TrapReason,
)
    requires
        *old(trap) == TrapReason::NoTrap,
        mem_offset % 4 == 0,
        idx <= 64,
        (mem_offset as int) / 4 + idx < old(memory_source)@.len(),
    ensures
        *final(trap) == TrapReason::NoTrap,
        final(memory_source)@ == old(memory_source)@.update(
            (mem_offset as int) / 4 + idx,
            value,
        ),
{
    let address = mem_offset as u64 + (idx as u64) * 4;
    proof {
        assert(address % 4 == 0);
        assert(address / 4 == (mem_offset as int) / 4 + idx);
    }
    memory_source.set(address, value, AccessType::RegWrite, trap)
}

/// Two states that agree on everything but the register file.
pub open spec fn spec_same_but_registers(pre: RiscV32State, post: RiscV32State) -> bool {
    &&& post.pc == pre.pc
    &&& post.extra_flags == pre.extra_flags
    &&& post.cycle_counter == pre.cycle_counter
    &&& post.timer == pre.timer
    &&& post.timer_match == pre.timer_match
    &&& post.machine_mode_trap_data == pre.machine_mode_trap_data
    &&& post.sapt == pre.sapt
}

/// The CSR processor that wires the reserved delegation indices to their
/// kernels. A read of a delegation CSR returns zero; a write runs the
/// kernel named by the index, atomically from the guest's viewpoint.
/// The cycle engine's own CSR bank serves only the standard set and the
/// oracle port: a host that wants the delegation window live routes the
/// reserved indices here before they reach the bank.
#[derive(Clone, Copy, Debug, PartialEq, Eq, Structural)]
pub struct DelegationsCSRProcessor;

impl CustomCSRProcessor for DelegationsCSRProcessor {
    open spec fn spec_read_pre(&self, state: RiscV32State, mem: Seq<u32>, csr_index: u32, rs1_value: u32, zimm: u32) -> bool {
        true
    }

    open spec fn spec_write_pre(&self, state: RiscV32State, mem: Seq<u32>, csr_index: u32, rs1_value: u32, zimm: u32) -> bool {
        if csr_index == NON_DETERMINISM_CSR + 1 {
            blake2s::spec_blake2s_pre(mem, rs1_value)
        } else if csr_index == NON_DETERMINISM_CSR + 2 {
            blake2_round_function::spec_blake2_round_pre(mem, rs1_value)
        } else if csr_index == NON_DETERMINISM_CSR + 3 {
            blake2_round_function_with_final_xor::spec_blake2_round_with_xor_pre(mem, rs1_value)
        } else if csr_index == NON_DETERMINISM_CSR + 4 {
            blake2_round_function_state_in_registers::spec_blake2_regs_pre(mem, rs1_value)
                && spec_is_perm_mask(state.registers[26])
        } else if csr_index == NON_DETERMINISM_CSR + 6 {
            poseidon2_provide_witness_and_compress::spec_poseidon2_pre(mem, rs1_value)
        } else {
            true
        }
    }

    /// A delegation read is free of effects: it delivers zero, and traps
    /// only outside the reserved index window.
    open spec fn spec_read_rel(
        &self,
        pre_state: RiscV32State,
        pre_mem: Seq<u32>,
        csr_index: u32,
        rs1_value: u32,
        zimm: u32,
        post: Self,
        post_state: RiscV32State,
        post_mem: Seq<u32>,
        ret_val: u32,
        post_trap: TrapReason,
    ) -> bool {
        &&& post == *self
        &&& post_state == pre_state
        &&& post_mem == pre_mem
        &&& ret_val == 0
        &&& post_trap == (if NON_DETERMINISM_CSR + 1 <= csr_index <= NON_DETERMINISM_CSR + 6 {
            TrapReason::NoTrap
        } else {
            TrapReason::IllegalInstruction
        })
    }

    /// A delegation write runs the kernel its index names: the ABI
    /// region (or the register file, for the register-resident kernels)
    /// takes exactly the kernel's stated result and the trap stays
    /// clear; any other index raises illegal-instruction and changes
    /// nothing.
    open spec fn spec_write_rel(
        &self,
        pre_state: RiscV32State,
        pre_mem: Seq<u32>,
        csr_index: u32,
        rs1_value: u32,
        zimm: u32,
        post: Self,
        post_state: RiscV32State,
        post_mem: Seq<u32>,
        post_trap: TrapReason,
    ) -> bool {
        let base = spec_deleg_base(rs1_value);
        &&& post == *self
        &&& if csr_index == NON_DETERMINISM_CSR + 1 {
            &&& post_state == pre_state
            &&& post_mem == spec_store_words(
                pre_mem,
                base,
                blake2s::spec_blake2s_result(pre_mem, base, false),
            )
            &&& post_trap == TrapReason::NoTrap
        } else if csr_index == NON_DETERMINISM_CSR + 2 {
            &&& post_state == pre_state
            &&& post_mem == spec_store_words(
                pre_mem,
                base,
                blake2_round_function::spec_blake2_round_result(pre_mem, base),
            )
            &&& post_trap == TrapReason::NoTrap
        } else if csr_index == NON_DETERMINISM_CSR + 3 {
            &&& post_state == pre_state
            &&& post_mem == spec_store_words(
                pre_mem,
                base,
                blake2_round_function_with_final_xor::spec_with_xor_result(pre_mem, base),
            )
            &&& post_trap == TrapReason::NoTrap
        } else if csr_index == NON_DETERMINISM_CSR + 4 {
            &&& post_mem == pre_mem
            &&& post_trap == TrapReason::NoTrap
            &&& post_state.registers@ == Seq::new(
                32,
                |i: int|
                    if 10 <= i < 26 {
                        blake2_round_function_state_in_registers::spec_blake2_regs_result(
                            pre_state.registers@,
                            pre_mem,
                            base,
                        )[i - 10]
                    } else {
                        pre_state.registers@[i]
                    },
            )
            &&& spec_same_but_registers(pre_state, post_state)
        } else if csr_index == NON_DETERMINISM_CSR + 5 {
            &&& post_mem == pre_mem
            &&& post_trap == TrapReason::NoTrap
            &&& post_state.registers@ == mersenne_ext4_fma::spec_mersenne_fma_regs(
                pre_state.registers@,
            )
            &&& spec_same_but_registers(pre_state, post_state)
        } else if csr_index == NON_DETERMINISM_CSR + 6 {
            &&& post_state == pre_state
            &&& post_mem == spec_store_words(
                pre_mem,
                base,
                poseidon2_provide_witness_and_compress::spec_poseidon2_result(pre_mem, base),
            )
            &&& post_trap == TrapReason::NoTrap
        } else {
            &&& post_state == pre_state
            &&& post_mem == pre_mem
            &&& post_trap == TrapReason::IllegalInstruction
        }
    }

    fn process_read<M: MemorySource, TR: Tracer, ND: NonDeterminismCSRSource<M>, MMU: MMUImplementation<M, TR>>(
        &mut self,
        state: &mut RiscV32State,
        memory_source: &mut M,
        non_determinism_source: &mut ND,
        tracer: &mut TR,
        mmu: &mut MMU,
        csr_index: u32,
        rs1_value: u32,
        zimm: u32,
        ret_val: &mut u32,
        trap: &mut TrapReason,
        proc_cycle: u32,
        cycle_timestamp: u32,
    ) {
        *ret_val = 0;
        if csr_index >= NON_DETERMINISM_CSR + 1 && csr_index <= NON_DETERMINISM_CSR + 6 {
        } else {
            *trap = TrapReason::IllegalInstruction;
        }
    }

    fn process_write<M: MemorySource, TR: Tracer, ND: NonDeterminismCSRSource<M>, MMU: MMUImplementation<M, TR>>(
        &mut self,
        state: &mut RiscV32State,
        memory_source: &mut M,
        non_determinism_source: &mut ND,
        tracer: &mut TR,
        mmu: &mut MMU,
        csr_index: u32,
        rs1_value: u32,
        zimm: u32,
        trap: &mut TrapReason,
        proc_cycle: u32,
        cycle_timestamp: u32,
    ) {
        if csr_index == NON_DETERMINISM_CSR + 1 {
            blake2s::blake2s_round_function::<M, TR, false>(
                memory_source,
                tracer,
                rs1_value,
                trap,
                proc_cycle,
                cycle_timestamp,
            );
        } else if csr_index == NON_DETERMINISM_CSR + 2 {
            blake2_round_function::blake2_round_function(
                memory_source,
                tracer,
                rs1_value,
                trap,
                proc_cycle,
                cycle_timestamp,
            );
        } else if csr_index == NON_DETERMINISM_CSR + 3 {
            blake2_round_function_with_final_xor::blake2_round_function_with_xor(
                memory_source,
                tracer,
                rs1_value,
                trap,
                proc_cycle,
                cycle_timestamp,
            );
        } else if csr_index == NON_DETERMINISM_CSR + 4 {
            blake2_round_function_state_in_registers::blake2_round_function_with_state_in_registers(
                state,
                memory_source,
                tracer,
                rs1_value,
                trap,
                proc_cycle,
                cycle_timestamp,
            );
        } else if csr_index == NON_DETERMINISM_CSR + 5 {
            mersenne_ext4_fma::mersenne_ext4_fma_impl(
                state,
                tracer,
                rs1_value,
                trap,
                proc_cycle,
                cycle_timestamp,
            );
        } else if csr_index == NON_DETERMINISM_CSR + 6 {
            poseidon2_provide_witness_and_compress::poseidon2_witness_and_compress(
                memory_source,
                non_determinism_source,
                tracer,
                rs1_value,
                trap,
                proc_cycle,
                cycle_timestamp,
            );
        } else {
            *trap = TrapReason::IllegalInstruction;
        }
    }
}

} // verus!
