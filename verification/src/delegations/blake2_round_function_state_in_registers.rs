use vstd::prelude::*;

use crate::abstractions::memory::MemorySource;
use crate::abstractions::tracer::BatchAccessPartialData;
use crate::abstractions::tracer::Tracer;
use crate::cycle::state::NON_DETERMINISM_CSR;
use crate::cycle::state::RiscV32State;
use crate::cycle::status_registers::TrapReason;
use crate::delegations::blake2_mixing::spec_blake2s_iv;
use crate::delegations::blake2_mixing::spec_mixing;
use crate::delegations::blake2_mixing::blake2s_iv;
use crate::delegations::blake2_mixing::mixing_function;
use crate::delegations::lemma_deleg_offset;
use crate::delegations::perm_index;
use crate::delegations::region_read;
use crate::delegations::spec_deleg_base;
use crate::delegations::spec_is_perm_mask;
use crate::delegations::spec_perm_index;

verus! {

broadcast use vstd::array::group_array_axioms;

/// Only the sixteen message words live in memory; the extended state
/// comes from registers x10..x25 and the selector from x26.
pub const BLAKE2_REGS_ABI_NUM_MEM_ACCESSES: usize = 16;

pub const BLAKE2_ROUND_FUNCTION_WITH_STATE_IN_REGISTERS_ACCESS_ID: u32 = NON_DETERMINISM_CSR + 4;

/// The guest-host contract: an aligned message region that fits in
/// memory; the selector in x26 is one-hot.
pub open spec fn spec_blake2_regs_pre(mem: Seq<u32>, rs1: u32) -> bool {
    &&& rs1 & 0xffffu32 == 0
    &&& spec_deleg_base(rs1) + 16 <= mem.len()
}

/// The new extended state: registers x10..x25 (with the initialisation
/// words loaded on the first round) mixed once with the in-memory block
/// under the selector in x26.
pub open spec fn spec_blake2_regs_result(regs: Seq<u32>, mem: Seq<u32>, base: int) -> Seq<u32> {
    let perm = spec_perm_index(regs[26]);
    let ext0 = Seq::new(16, |i: int| regs[10 + i]);
    let ext1 = if perm == 0 {
        ext0.update(8, spec_blake2s_iv(0)).update(9, spec_blake2s_iv(1)).update(
            10,
            spec_blake2s_iv(2),
        ).update(11, spec_blake2s_iv(3)).update(13, spec_blake2s_iv(5)).update(
            15,
            spec_blake2s_iv(7),
        )
    } else {
        ext0
    };
    let block = Seq::new(16, |i: int| mem[base + i]);
    spec_mixing(ext1, block, perm)
}


/// The whole-state image of the register-resident kernel: x10..x25 take
/// the mixed extended state, everything else stays as it was.
pub open spec fn spec_blake2_regs_state(s: RiscV32State, mem: Seq<u32>, base: int) -> RiscV32State {
    RiscV32State {
        registers: vstd::array::spec_array_update(
        vstd::array::spec_array_update(
        vstd::array::spec_array_update(
        vstd::array::spec_array_update(
        vstd::array::spec_array_update(
        vstd::array::spec_array_update(
        vstd::array::spec_array_update(
        vstd::array::spec_array_update(
        vstd::array::spec_array_update(
        vstd::array::spec_array_update(
        vstd::array::spec_array_update(
        vstd::array::spec_array_update(
        vstd::array::spec_array_update(
        vstd::array::spec_array_update(
        vstd::array::spec_array_update(
        vstd::array::spec_array_update(
        s.registers,
        10,
        spec_blake2_regs_result(s.registers@, mem, base)[0],
    ),
        11,
        spec_blake2_regs_result(s.registers@, mem, base)[1],
    ),
        12,
        spec_blake2_regs_result(s.registers@, mem, base)[2],
    ),
        13,
        spec_blake2_regs_result(s.registers@, mem, base)[3],
    ),
        14,
        spec_blake2_regs_result(s.registers@, mem, base)[4],
    ),
        15,
        spec_blake2_regs_result(s.registers@, mem, base)[5],
    ),
        16,
        spec_blake2_regs_result(s.registers@, mem, base)[6],
    ),
        17,
        spec_blake2_regs_result(s.registers@, mem, base)[7],
    ),
        18,
        spec_blake2_regs_result(s.registers@, mem, base)[8],
    ),
        19,
        spec_blake2_regs_result(s.registers@, mem, base)[9],
    ),
        20,
        spec_blake2_regs_result(s.registers@, mem, base)[10],
    ),
        21,
        spec_blake2_regs_result(s.registers@, mem, base)[11],
    ),
        22,
        spec_blake2_regs_result(s.registers@, mem, base)[12],
    ),
        23,
        spec_blake2_regs_result(s.registers@, mem, base)[13],
    ),
        24,
        spec_blake2_regs_result(s.registers@, mem, base)[14],
    ),
        25,
        spec_blake2_regs_result(s.registers@, mem, base)[15],
    ),
        ..s
    }
}

/// The register file of that image, seen as a sequence.
pub proof fn lemma_blake2_regs_state_view(s: RiscV32State, mem: Seq<u32>, base: int)
    ensures
        spec_blake2_regs_state(s, mem, base).registers@ == Seq::new(
            32,
            |i: int|
                if 10 <= i < 26 {
                    spec_blake2_regs_result(s.registers@, mem, base)[i - 10]
                } else {
                    s.registers@[i]
                },
        ),
{
    assert(spec_blake2_regs_state(s, mem, base).registers@ =~= Seq::new(
        32,
        |i: int|
            if 10 <= i < 26 {
                spec_blake2_regs_result(s.registers@, mem, base)[i - 10]
            } else {
                s.registers@[i]
            },
    ));
}

/// The register-resident round-function kernel: state in x10..x25, the
/// one-hot permutation selector in x26, the message block in the ABI
/// region; the new state lands back in x10..x25.
#[verifier::rlimit(100)]
pub fn blake2_round_function_with_state_in_registers<M: MemorySource, TR: Tracer>(
    state: &mut RiscV32State,
    memory_source: &mut M,
    tracer: &mut TR,
    rs1_value: u32,
    trap: &mut TrapReason,
    proc_cycle: u32,
    cycle_timestamp: u32,
)
    requires
        *old(trap) == TrapReason::NoTrap,
        spec_blake2_regs_pre(old(memory_source)@, rs1_value),
        spec_is_perm_mask(old(state).registers[26]),
    ensures
        *final(trap) == TrapReason::NoTrap,
        final(memory_source)@ == old(memory_source)@,
        final(state).registers@ == Seq::new(
            32,
            |i: int|
                if 10 <= i < 26 {
                    spec_blake2_regs_result(
                        old(state).registers@,
                        old(memory_source)@,
                        spec_deleg_base(rs1_value),
                    )[i - 10]
                } else {
                    old(state).registers@[i]
                },
        ),
        final(state).pc == old(state).pc,
        final(state).extra_flags == old(state).extra_flags,
        final(state).cycle_counter == old(state).cycle_counter,
        final(state).timer == old(state).timer,
        final(state).timer_match == old(state).timer_match,
        final(state).machine_mode_trap_data == old(state).machine_mode_trap_data,
        final(state).sapt == old(state).sapt,
{
    proof {
        lemma_deleg_offset(rs1_value);
    }
    let mem_offset = rs1_value & 0xffff_0000;
    let ghost base = spec_deleg_base(rs1_value);
    let mut accesses: Vec<BatchAccessPartialData> = Vec::new();
    let mut extended_state = [0u32;16];
    let mut i: usize = 0;
    while i < 16
        invariant
            i <= 16,
            *state == *old(state),
            forall|j: int| 0 <= j < i ==> extended_state@[j] == state.registers@[10 + j],
        decreases 16 - i,
    {
        extended_state[i] = state.registers[10 + i];
        i = i + 1;
    }
    let permutation_bitmask = state.registers[26];
    let mut message_block = [0u32;16];
    let mut k: usize = 0;
    while k < 16
        invariant
            k <= 16,
            *trap == TrapReason::NoTrap,
            mem_offset == rs1_value,
            spec_blake2_regs_pre(memory_source@, rs1_value),
            memory_source@ == old(memory_source)@,
            base == spec_deleg_base(rs1_value),
            mem_offset % 4 == 0,
            forall|j: int| 0 <= j < k ==> message_block@[j] == memory_source@[base + j],
        decreases 16 - k,
    {
        let v = region_read(memory_source, mem_offset, k as u32, trap);
        message_block[k] = v;
        accesses.push(BatchAccessPartialData::Read { read_value: v });
        k = k + 1;
    }
    let permutation_index = perm_index(permutation_bitmask);
    if permutation_index == 0 {
        extended_state[8] = blake2s_iv(0);
        extended_state[9] = blake2s_iv(1);
        extended_state[10] = blake2s_iv(2);
        extended_state[11] = blake2s_iv(3);
        extended_state[13] = blake2s_iv(5);
        extended_state[15] = blake2s_iv(7);
    }
    proof {
        let ext0 = Seq::new(16, |j: int| old(state).registers@[10 + j]);
        if permutation_index == 0 {
            assert(extended_state@ =~= ext0.update(8, spec_blake2s_iv(0)).update(
                9,
                spec_blake2s_iv(1),
            ).update(10, spec_blake2s_iv(2)).update(11, spec_blake2s_iv(3)).update(
                13,
                spec_blake2s_iv(5),
            ).update(15, spec_blake2s_iv(7)));
        } else {
            assert(extended_state@ =~= ext0);
        }
        assert(message_block@ =~= Seq::new(16, |j: int| old(memory_source)@[base + j]));
    }
    mixing_function(&mut extended_state, &message_block, permutation_index);
    let mut w: usize = 0;
    while w < 16
        invariant
            w <= 16,
            extended_state@ == spec_blake2_regs_result(
                old(state).registers@,
                old(memory_source)@,
                base,
            ),
            state.pc == old(state).pc,
            state.extra_flags == old(state).extra_flags,
            state.cycle_counter == old(state).cycle_counter,
            state.timer == old(state).timer,
            state.timer_match == old(state).timer_match,
            state.machine_mode_trap_data == old(state).machine_mode_trap_data,
            state.sapt == old(state).sapt,
            forall|j: int| 0 <= j < w ==> state.registers@[10 + j] == extended_state@[j],
            forall|j: int|
                0 <= j < 32 && !(10 <= j < 10 + w) ==> state.registers@[j] == old(
                    state,
                ).registers@[j],
        decreases 16 - w,
    {
        state.registers[10 + w] = extended_state[w];
        w = w + 1;
    }
    proof {
        assert(state.registers@ =~= Seq::new(
            32,
            |i: int|
                if 10 <= i < 26 {
                    spec_blake2_regs_result(
                        old(state).registers@,
                        old(memory_source)@,
                        spec_deleg_base(rs1_value),
                    )[i - 10]
                } else {
                    old(state).registers@[i]
                },
        ));
    }
    tracer.trace_batch_memory_access(
        BLAKE2_ROUND_FUNCTION_WITH_STATE_IN_REGISTERS_ACCESS_ID,
        (mem_offset >> 16) as u16,
        &accesses,
        proc_cycle,
        cycle_timestamp,
    );
}

} // verus!
