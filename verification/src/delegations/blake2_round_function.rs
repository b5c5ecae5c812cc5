use vstd::prelude::*;

use crate::abstractions::memory::MemorySource;
use crate::abstractions::tracer::BatchAccessPartialData;
use crate::abstractions::tracer::Tracer;
use crate::cycle::state::NON_DETERMINISM_CSR;
use crate::cycle::status_registers::TrapReason;
use crate::delegations::blake2_mixing::spec_blake2s_iv;
use crate::delegations::blake2_mixing::spec_mixing;
use crate::delegations::blake2_mixing::blake2s_iv;
use crate::delegations::blake2_mixing::mixing_function;
use crate::delegations::lemma_deleg_offset;
use crate::delegations::perm_index;
use crate::delegations::region_read;
use crate::delegations::region_write;
use crate::delegations::spec_deleg_base;
use crate::delegations::spec_is_perm_mask;
use crate::delegations::spec_perm_index;
use crate::delegations::spec_store_words;

verus! {

/// The region holds 16 extended-state words, 16 message words and one
/// permutation selector.
pub const BLAKE2_ROUND_FUNCTION_ABI_NUM_MEM_ACCESSES: usize = 33;

pub const BLAKE2_ROUND_FUNCTION_ACCESS_ID: u32 = NON_DETERMINISM_CSR + 2;

/// The guest-host contract of the round-function kernel: an aligned
/// region that fits in memory, whose selector word is one-hot.
pub open spec fn spec_blake2_round_pre(mem: Seq<u32>, rs1: u32) -> bool {
    &&& rs1 & 0xffffu32 == 0
    &&& spec_deleg_base(rs1) + 33 <= mem.len()
    &&& spec_is_perm_mask(mem[spec_deleg_base(rs1) + 32])
}

/// The 16 words the kernel writes back: the extended state (with the
/// initialisation words loaded into lanes 8..12, 13 and 15 on the first
/// round) mixed once with the region's message block under the selected
/// permutation.
pub open spec fn spec_blake2_round_result(mem: Seq<u32>, base: int) -> Seq<u32> {
    let perm = spec_perm_index(mem[base + 32]);
    let ext0 = Seq::new(16, |i: int| mem[base + i]);
    let ext1 = if perm == 0 {
        ext0.update(8, spec_blake2s_iv(0)).update(9, spec_blake2s_iv(1)).update(
            10,
            spec_blake2s_iv(2),
        ).update(11, spec_blake2s_iv(3)).update(13, spec_blake2s_iv(5)).update(
            15,
            spec_blake2s_iv(7),
        )
    } else {
        ext0
    };
    let block = Seq::new(16, |i: int| mem[base + 16 + i]);
    spec_mixing(ext1, block, perm)
}

/// The compression-round kernel: reads the extended state, the message
/// block and the permutation selector from the ABI region, mixes once,
/// and writes the new extended state back over the first sixteen words.
#[verifier::rlimit(100)]
pub fn blake2_round_function<M: MemorySource, TR: Tracer>(
    memory_source: &mut M,
    tracer: &mut TR,
    rs1_value: u32,
    trap: &mut TrapReason,
    proc_cycle: u32,
    cycle_timestamp: u32,
)
    requires
        *old(trap) == TrapReason::NoTrap,
        spec_blake2_round_pre(old(memory_source)@, rs1_value),
    ensures
        *final(trap) == TrapReason::NoTrap,
        final(memory_source)@ == spec_store_words(
            old(memory_source)@,
            spec_deleg_base(rs1_value),
            spec_blake2_round_result(old(memory_source)@, spec_deleg_base(rs1_value)),
        ),
{
    proof {
        lemma_deleg_offset(rs1_value);
    }
    let mem_offset = rs1_value & 0xffff_0000;
    let ghost base = spec_deleg_base(rs1_value);
    let mut accesses: Vec<BatchAccessPartialData> = Vec::new();
    let mut extended_state = [0u32;16];
    let mut i: usize = 0;
    while i < 16
        invariant
            i <= 16,
            *trap == TrapReason::NoTrap,
            mem_offset == rs1_value,
            spec_blake2_round_pre(memory_source@, rs1_value),
            memory_source@ == old(memory_source)@,
            base == spec_deleg_base(rs1_value),
            mem_offset % 4 == 0,
            accesses@.len() == i,
            forall|j: int| 0 <= j < i ==> extended_state@[j] == memory_source@[base + j],
        decreases 16 - i,
    {
        let v = region_read(memory_source, mem_offset, i as u32, trap);
        extended_state[i] = v;
        accesses.push(BatchAccessPartialData::Write { read_value: v, written_value: 0 });
        i = i + 1;
    }
    let initial_state = extended_state;
    let mut message_block = [0u32;16];
    let mut k: usize = 0;
    while k < 16
        invariant
            k <= 16,
            *trap == TrapReason::NoTrap,
            mem_offset == rs1_value,
            spec_blake2_round_pre(memory_source@, rs1_value),
            memory_source@ == old(memory_source)@,
            base == spec_deleg_base(rs1_value),
            mem_offset % 4 == 0,
            accesses@.len() == 16 + k,
            forall|j: int| 0 <= j < k ==> message_block@[j] == memory_source@[base + 16 + j],
        decreases 16 - k,
    {
        let v = region_read(memory_source, mem_offset, (16 + k) as u32, trap);
        message_block[k] = v;
        accesses.push(BatchAccessPartialData::Read { read_value: v });
        k = k + 1;
    }
    let permutation_bitmask = region_read(memory_source, mem_offset, 32, trap);
    accesses.push(BatchAccessPartialData::Read { read_value: permutation_bitmask });
    let permutation_index = perm_index(permutation_bitmask);
    if permutation_index == 0 {
        extended_state[8] = blake2s_iv(0);
        extended_state[9] = blake2s_iv(1);
        extended_state[10] = blake2s_iv(2);
        extended_state[11] = blake2s_iv(3);
        extended_state[13] = blake2s_iv(5);
        extended_state[15] = blake2s_iv(7);
    }
    proof {
        let ext0 = Seq::new(16, |j: int| old(memory_source)@[base + j]);
        assert(initial_state@ =~= ext0);
        if permutation_index == 0 {
            assert(extended_state@ =~= ext0.update(8, spec_blake2s_iv(0)).update(
                9,
                spec_blake2s_iv(1),
            ).update(10, spec_blake2s_iv(2)).update(11, spec_blake2s_iv(3)).update(
                13,
                spec_blake2s_iv(5),
            ).update(15, spec_blake2s_iv(7)));
        } else {
            assert(extended_state@ =~= ext0);
        }
        assert(message_block@ =~= Seq::new(16, |j: int| old(memory_source)@[base + 16 + j]));
    }
    mixing_function(&mut extended_state, &message_block, permutation_index);
    proof {
        assert(extended_state@ == spec_blake2_round_result(old(memory_source)@, base));
    }
    let mut w: usize = 0;
    while w < 16
        invariant
            w <= 16,
            *trap == TrapReason::NoTrap,
            mem_offset == rs1_value,
            mem_offset % 4 == 0,
            base == spec_deleg_base(rs1_value),
            base + 33 <= memory_source@.len(),
            memory_source@.len() == old(memory_source)@.len(),
            extended_state@ == spec_blake2_round_result(old(memory_source)@, base),
            accesses@.len() == 33,
            forall|j: int| 0 <= j < w ==> memory_source@[base + j] == extended_state@[j],
            forall|j: int|
                0 <= j < memory_source@.len() && !(base <= j < base + w) ==> memory_source@[j]
                    == old(memory_source)@[j],
        decreases 16 - w,
    {
        region_write(memory_source, mem_offset, w as u32, extended_state[w], trap);
        accesses[w] = BatchAccessPartialData::Write {
            read_value: initial_state[w],
            written_value: extended_state[w],
        };
        w = w + 1;
    }
    proof {
        assert(memory_source@ =~= spec_store_words(
            old(memory_source)@,
            base,
            spec_blake2_round_result(old(memory_source)@, base),
        ));
    }
    tracer.trace_batch_memory_access(
        BLAKE2_ROUND_FUNCTION_ACCESS_ID,
        (mem_offset >> 16) as u16,
        &accesses,
        proc_cycle,
        cycle_timestamp,
    );
}

} // verus!
