use vstd::prelude::*;

use crate::abstractions::memory::MemorySource;
use crate::abstractions::tracer::BatchAccessPartialData;
use crate::abstractions::tracer::Tracer;
use crate::cycle::state::NON_DETERMINISM_CSR;
use crate::cycle::status_registers::TrapReason;
use crate::delegations::blake2_mixing::spec_blake2s_iv;
use crate::delegations::blake2_mixing::spec_mixing;
use crate::delegations::blake2_mixing::blake2s_iv;
use crate::delegations::blake2_mixing::mixing_function;
use crate::delegations::lemma_deleg_offset;
use crate::delegations::perm_index;
use crate::delegations::region_read;
use crate::delegations::region_write;
use crate::delegations::spec_deleg_base;
use crate::delegations::spec_is_perm_mask;
use crate::delegations::spec_perm_index;
use crate::delegations::spec_store_words;

verus! {

/// The region holds 8 running-state words, 16 scratch words, 16 message
/// words, the permutation selector and the flush flag.
pub const BLAKE2_ROUND_FUNCTION_WITH_XOR_ABI_NUM_MEM_ACCESSES: usize = 42;

pub const BLAKE2_ROUND_FUNCTION_WITH_XOR_ACCESS_ID: u32 = NON_DETERMINISM_CSR + 3;

/// The guest-host contract: an aligned region that fits in memory, a
/// one-hot selector at slot 40, a boolean flush flag at slot 41, and a
/// flush only after the seventh or the tenth round.
pub open spec fn spec_blake2_round_with_xor_pre(mem: Seq<u32>, rs1: u32) -> bool {
    let base = spec_deleg_base(rs1);
    &&& rs1 & 0xffffu32 == 0
    &&& base + 42 <= mem.len()
    &&& spec_is_perm_mask(mem[base + 40])
    &&& (mem[base + 41] == 0 || mem[base + 41] == 1)
    &&& (mem[base + 41] == 1 ==> spec_perm_index(mem[base + 40]) == 6 || spec_perm_index(
        mem[base + 40],
    ) == 9)
}

/// The scratch state the mixing round starts from: on the first round it
/// is seeded from the running state and the initialisation words,
/// otherwise it is the scratch area as stored.
pub open spec fn spec_with_xor_initial_ext(mem: Seq<u32>, base: int) -> Seq<u32> {
    let perm = spec_perm_index(mem[base + 40]);
    let ext0 = Seq::new(16, |i: int| mem[base + 8 + i]);
    if perm == 0 {
        Seq::new(
            16,
            |i: int|
                if i < 8 {
                    mem[base + i]
                } else if i < 12 {
                    spec_blake2s_iv(i - 8)
                } else if i == 13 {
                    spec_blake2s_iv(5)
                } else if i == 15 {
                    spec_blake2s_iv(7)
                } else {
                    ext0[i]
                },
        )
    } else {
        ext0
    }
}

/// The mixed scratch state the kernel writes back to slots 8..24.
pub open spec fn spec_with_xor_ext_result(mem: Seq<u32>, base: int) -> Seq<u32> {
    spec_mixing(
        spec_with_xor_initial_ext(mem, base),
        Seq::new(16, |i: int| mem[base + 24 + i]),
        spec_perm_index(mem[base + 40]),
    )
}

/// The running state the kernel writes back to slots 0..8: folded by xor
/// with both halves of the mixed scratch when the flush flag is set,
/// unchanged otherwise.
pub open spec fn spec_with_xor_state_result(mem: Seq<u32>, base: int) -> Seq<u32> {
    let v = spec_with_xor_ext_result(mem, base);
    if mem[base + 41] == 1 {
        Seq::new(8, |i: int| mem[base + i] ^ v[i] ^ v[i + 8])
    } else {
        Seq::new(8, |i: int| mem[base + i])
    }
}

/// The 24 words the kernel writes back over slots 0..24.
pub open spec fn spec_with_xor_result(mem: Seq<u32>, base: int) -> Seq<u32> {
    spec_with_xor_state_result(mem, base) + spec_with_xor_ext_result(mem, base)
}

/// The round-function kernel with running state: mixes the scratch state
/// once and, on the flush round, folds it into the running state.
#[verifier::rlimit(100)]
pub fn blake2_round_function_with_xor<M: MemorySource, TR: Tracer>(
    memory_source: &mut M,
    tracer: &mut TR,
    rs1_value: u32,
    trap: &mut TrapReason,
    proc_cycle: u32,
    cycle_timestamp: u32,
)
    requires
        *old(trap) == TrapReason::NoTrap,
        spec_blake2_round_with_xor_pre(old(memory_source)@, rs1_value),
    ensures
        *final(trap) == TrapReason::NoTrap,
        final(memory_source)@ == spec_store_words(
            old(memory_source)@,
            spec_deleg_base(rs1_value),
            spec_with_xor_result(old(memory_source)@, spec_deleg_base(rs1_value)),
        ),
{
    proof {
        lemma_deleg_offset(rs1_value);
    }
    let mem_offset = rs1_value & 0xffff_0000;
    let ghost base = spec_deleg_base(rs1_value);
    let mut accesses: Vec<BatchAccessPartialData> = Vec::new();
    let mut initial_state = [0u32;8];
    let mut i: usize = 0;
    while i < 8
        invariant
            i <= 8,
            *trap == TrapReason::NoTrap,
            mem_offset == rs1_value,
            spec_blake2_round_with_xor_pre(memory_source@, rs1_value),
            memory_source@ == old(memory_source)@,
            base == spec_deleg_base(rs1_value),
            mem_offset % 4 == 0,
            accesses@.len() == i,
            forall|j: int| 0 <= j < i ==> initial_state@[j] == memory_source@[base + j],
        decreases 8 - i,
    {
        let v = region_read(memory_source, mem_offset, i as u32, trap);
        initial_state[i] = v;
        accesses.push(BatchAccessPartialData::Write { read_value: v, written_value: 0 });
        i = i + 1;
    }
    let mut extended_state = [0u32;16];
    let mut e: usize = 0;
    while e < 16
        invariant
            e <= 16,
            *trap == TrapReason::NoTrap,
            mem_offset == rs1_value,
            spec_blake2_round_with_xor_pre(memory_source@, rs1_value),
            memory_source@ == old(memory_source)@,
            base == spec_deleg_base(rs1_value),
            mem_offset % 4 == 0,
            accesses@.len() == 8 + e,
            forall|j: int| 0 <= j < e ==> extended_state@[j] == memory_source@[base + 8 + j],
        decreases 16 - e,
    {
        let v = region_read(memory_source, mem_offset, (8 + e) as u32, trap);
        extended_state[e] = v;
        accesses.push(BatchAccessPartialData::Write { read_value: v, written_value: 0 });
        e = e + 1;
    }
    let read_state = initial_state;
    let read_ext = extended_state;
    let mut message_block = [0u32;16];
    let mut k: usize = 0;
    while k < 16
        invariant
            k <= 16,
            *trap == TrapReason::NoTrap,
            mem_offset == rs1_value,
            spec_blake2_round_with_xor_pre(memory_source@, rs1_value),
            memory_source@ == old(memory_source)@,
            base == spec_deleg_base(rs1_value),
            mem_offset % 4 == 0,
            accesses@.len() == 24 + k,
            forall|j: int| 0 <= j < k ==> message_block@[j] == memory_source@[base + 24 + j],
        decreases 16 - k,
    {
        let v = region_read(memory_source, mem_offset, (24 + k) as u32, trap);
        message_block[k] = v;
        accesses.push(BatchAccessPartialData::Read { read_value: v });
        k = k + 1;
    }
    let permutation_bitmask = region_read(memory_source, mem_offset, 40, trap);
    accesses.push(BatchAccessPartialData::Read { read_value: permutation_bitmask });
    let flush_bit = region_read(memory_source, mem_offset, 41, trap);
    accesses.push(BatchAccessPartialData::Read { read_value: flush_bit });
    let permutation_index = perm_index(permutation_bitmask);
    if permutation_index == 0 {
        extended_state[0] = initial_state[0];
        extended_state[1] = initial_state[1];
        extended_state[2] = initial_state[2];
        extended_state[3] = initial_state[3];
        extended_state[4] = initial_state[4];
        extended_state[5] = initial_state[5];
        extended_state[6] = initial_state[6];
        extended_state[7] = initial_state[7];
        extended_state[8] = blake2s_iv(0);
        extended_state[9] = blake2s_iv(1);
        extended_state[10] = blake2s_iv(2);
        extended_state[11] = blake2s_iv(3);
        extended_state[13] = blake2s_iv(5);
        extended_state[15] = blake2s_iv(7);
    }
    proof {
        assert(extended_state@ =~= spec_with_xor_initial_ext(old(memory_source)@, base));
        assert(message_block@ =~= Seq::new(16, |j: int| old(memory_source)@[base + 24 + j]));
    }
    mixing_function(&mut extended_state, &message_block, permutation_index);
    if flush_bit == 1 {
        let mut x: usize = 0;
        while x < 8
            invariant
                x <= 8,
                extended_state@ == spec_with_xor_ext_result(old(memory_source)@, base),
                forall|j: int|
                    0 <= j < x ==> initial_state@[j] == old(memory_source)@[base + j]
                        ^ extended_state@[j] ^ extended_state@[j + 8],
                forall|j: int| x <= j < 8 ==> initial_state@[j] == old(memory_source)@[base + j],
            decreases 8 - x,
        {
            initial_state[x] = initial_state[x] ^ extended_state[x] ^ extended_state[x + 8];
            x = x + 1;
        }
    }
    proof {
        assert(initial_state@ =~= spec_with_xor_state_result(old(memory_source)@, base));
    }
    let ghost full_result = spec_with_xor_result(old(memory_source)@, base);
    let mut w: usize = 0;
    while w < 8
        invariant
            w <= 8,
            *trap == TrapReason::NoTrap,
            mem_offset == rs1_value,
            mem_offset % 4 == 0,
            base == spec_deleg_base(rs1_value),
            base + 42 <= memory_source@.len(),
            memory_source@.len() == old(memory_source)@.len(),
            initial_state@ == spec_with_xor_state_result(old(memory_source)@, base),
            accesses@.len() == 42,
            forall|j: int| 0 <= j < w ==> memory_source@[base + j] == initial_state@[j],
            forall|j: int|
                0 <= j < memory_source@.len() && !(base <= j < base + w) ==> memory_source@[j]
                    == old(memory_source)@[j],
        decreases 8 - w,
    {
        region_write(memory_source, mem_offset, w as u32, initial_state[w], trap);
        accesses[w] = BatchAccessPartialData::Write {
            read_value: read_state[w],
            written_value: initial_state[w],
        };
        w = w + 1;
    }
    let mut w2: usize = 0;
    while w2 < 16
        invariant
            w2 <= 16,
            *trap == TrapReason::NoTrap,
            mem_offset == rs1_value,
            mem_offset % 4 == 0,
            base == spec_deleg_base(rs1_value),
            base + 42 <= memory_source@.len(),
            memory_source@.len() == old(memory_source)@.len(),
            initial_state@ == spec_with_xor_state_result(old(memory_source)@, base),
            extended_state@ == spec_with_xor_ext_result(old(memory_source)@, base),
            accesses@.len() == 42,
            forall|j: int| 0 <= j < 8 ==> memory_source@[base + j] == initial_state@[j],
            forall|j: int| 0 <= j < w2 ==> memory_source@[base + 8 + j] == extended_state@[j],
            forall|j: int|
                0 <= j < memory_source@.len() && !(base <= j < base + 8 + w2) ==> memory_source@[j]
                    == old(memory_source)@[j],
        decreases 16 - w2,
    {
        region_write(memory_source, mem_offset, (8 + w2) as u32, extended_state[w2], trap);
        accesses[8 + w2] = BatchAccessPartialData::Write {
            read_value: read_ext[w2],
            written_value: extended_state[w2],
        };
        w2 = w2 + 1;
    }
    proof {
        assert(memory_source@ =~= spec_store_words(
            old(memory_source)@,
            base,
            spec_with_xor_result(old(memory_source)@, base),
        ));
    }
    tracer.trace_batch_memory_access(
        BLAKE2_ROUND_FUNCTION_WITH_XOR_ACCESS_ID,
        (mem_offset >> 16) as u16,
        &accesses,
        proc_cycle,
        cycle_timestamp,
    );
}

} // verus!
