use risc_v_simulator::abstractions::memory::MemorySource;
use risc_v_simulator::abstractions::memory::VectorMemoryImpl;
use risc_v_simulator::abstractions::memory::AccessType;
use risc_v_simulator::abstractions::non_determinism::ZeroedSource;
use risc_v_simulator::cycle::state::RiscV32State;
use risc_v_simulator::cycle::status_registers::TrapReason;
use risc_v_simulator::delegations::blake2_mixing::blake2s_iv;
use risc_v_simulator::delegations::blake2_mixing::g_function;
use risc_v_simulator::delegations::blake2_mixing::mixing_function;
use risc_v_simulator::abstractions::tracer::BatchAccessPartialData;
use risc_v_simulator::abstractions::tracer::Tracer;
use risc_v_simulator::delegations::blake2_round_function::blake2_round_function;
use risc_v_simulator::delegations::blake2s::blake2s_round_function;
use risc_v_simulator::delegations::mersenne_ext4_fma::mersenne_ext4_fma_impl;
use risc_v_simulator::delegations::mersenne_ext4_fma::m31_mul;
use risc_v_simulator::delegations::poseidon2_provide_witness_and_compress::poseidon2_witness_and_compress;

fn read_word(memory: &VectorMemoryImpl, address: u64) -> u32 {
    let mut trap = TrapReason::NoTrap;
    let value = memory.get(address, AccessType::MemLoad, &mut trap);
    assert_eq!(trap, TrapReason::NoTrap);
    value
}

#[test]
fn initialisation_words_are_the_blake2s_ones() {
    assert_eq!(blake2s_iv(0), 0x6A09E667);
    assert_eq!(blake2s_iv(1), 0xBB67AE85);
    assert_eq!(blake2s_iv(2), 0x3C6EF372);
    assert_eq!(blake2s_iv(3), 0xA54FF53A);
    assert_eq!(blake2s_iv(4), 0x510E527F);
    assert_eq!(blake2s_iv(5), 0x9B05688C);
    assert_eq!(blake2s_iv(6), 0x1F83D9AB);
    assert_eq!(blake2s_iv(7), 0x5BE0CD19);
}

#[test]
fn quarter_round_of_zeros_is_zero_and_mixing_is_deterministic() {
    let mut v = [0u32; 16];
    g_function(&mut v, 0, 4, 8, 12, 0, 0);
    assert_eq!(v, [0u32; 16]);

    let mut a = [7u32; 16];
    let mut b = [7u32; 16];
    let m: [u32; 16] = core::array::from_fn(|i| i as u32);
    mixing_function(&mut a, &m, 3);
    mixing_function(&mut b, &m, 3);
    assert_eq!(a, b);
    assert_ne!(a, [7u32; 16]);
    let mut c = [7u32; 16];
    mixing_function(&mut c, &m, 4);
    assert_ne!(a, c);
}

#[test]
fn round_function_kernel_rewrites_the_state_words() {
    let mut memory = VectorMemoryImpl::new_for_byte_size(0x2_0000);
    let base = 0x0001_0000u32;
    for slot in 0..16u32 {
        memory.populate(base + 4 * slot, slot + 1);
    }
    for slot in 16..32u32 {
        memory.populate(base + 4 * slot, 0x100 + slot);
    }
    memory.populate(base + 4 * 32, 1);  // first permutation
    let mut trap = TrapReason::NoTrap;
    blake2_round_function(&mut memory, &mut (), base, &mut trap, 0, 0);
    assert_eq!(trap, TrapReason::NoTrap);
    // The extended state was rewritten...
    let mut changed = false;
    for slot in 0..16u32 {
        if read_word(&memory, (base + 4 * slot) as u64) != slot + 1 {
            changed = true;
        }
    }
    assert!(changed);
    // ... and the message block was left alone.
    for slot in 16..32u32 {
        assert_eq!(read_word(&memory, (base + 4 * slot) as u64), 0x100 + slot);
    }
    assert_eq!(read_word(&memory, (base + 4 * 32) as u64), 1);
}

#[test]
fn witness_compress_kernel_increments_its_inputs() {
    let mut memory = VectorMemoryImpl::new_for_byte_size(0x2_0000);
    let base = 0x0001_0000u32;
    for slot in 0..8u32 {
        memory.populate(base + 4 * slot, 10 * slot);
    }
    memory.populate(base + 4 * 8, 1);
    let mut trap = TrapReason::NoTrap;
    let mut source = ZeroedSource;
    poseidon2_witness_and_compress(&mut memory, &mut source, &mut (), base, &mut trap, 0, 0);
    assert_eq!(trap, TrapReason::NoTrap);
    for slot in 0..8u32 {
        assert_eq!(read_word(&memory, (base + 4 * slot) as u64), 10 * slot + 1);
    }
    assert_eq!(read_word(&memory, (base + 4 * 8) as u64), 1);
}

#[test]
fn quartic_fma_on_base_field_scalars() {
    // dst = 2, a = 3, b = 4 as base-field scalars embedded in the
    // quartic tower: dst + a * b = 14 in the first lane, zero elsewhere.
    let mut state = RiscV32State::initial(0);
    state.registers[10] = 2;
    state.registers[14] = 3;
    state.registers[18] = 4;
    let mut trap = TrapReason::NoTrap;
    mersenne_ext4_fma_impl(&mut state, &mut (), 0, &mut trap, 0, 0);
    assert_eq!(state.registers[10], 14);
    assert_eq!(state.registers[11], 0);
    assert_eq!(state.registers[12], 0);
    assert_eq!(state.registers[13], 0);
}

#[test]
fn quartic_fma_reduces_wide_operands() {
    // The all-ones word reduces to 1 modulo the Mersenne prime, so the
    // product collapses to small numbers.
    let mut state = RiscV32State::initial(0);
    state.registers[10] = 0;
    state.registers[14] = 0xffff_ffff;  // reduces to 1
    state.registers[18] = 5;
    let mut trap = TrapReason::NoTrap;
    mersenne_ext4_fma_impl(&mut state, &mut (), 0, &mut trap, 0, 0);
    assert_eq!(state.registers[10], 5);
}

#[test]
fn base_field_multiplication_wraps_at_the_prime() {
    assert_eq!(m31_mul(0x7fff_fffe, 2), 0x7fff_fffd);
    assert_eq!(m31_mul(3, 5), 15);
}

/// A tracer that keeps every batched access record it is handed.
struct RecordingTracer {
    batches: Vec<(u32, u16, Vec<BatchAccessPartialData>)>,
}

impl Tracer for RecordingTracer {
    type AuxData = ();

    fn create_from_initial_state(_state: &RiscV32State, _aux_data: ()) -> Self {
        RecordingTracer { batches: Vec::new() }
    }

    fn trace_batch_memory_access(
        &mut self,
        access_id: u32,
        phys_address_high: u16,
        accesses: &Vec<BatchAccessPartialData>,
        _proc_cycle: u32,
        _cycle_timestamp: u32,
    ) {
        self.batches.push((access_id, phys_address_high, accesses.clone()));
    }
}

#[test]
fn batch_record_carries_pre_and_post_images() {
    let mut memory = VectorMemoryImpl::new_for_byte_size(0x2_0000);
    let base = 0x0001_0000u32;
    for slot in 0..8u32 {
        memory.populate(base + 4 * slot, 10 * slot);
    }
    memory.populate(base + 4 * 8, 1);
    let mut trap = TrapReason::NoTrap;
    let mut source = ZeroedSource;
    let mut tracer = RecordingTracer { batches: Vec::new() };
    poseidon2_witness_and_compress(&mut memory, &mut source, &mut tracer, base, &mut trap, 0, 0);
    assert_eq!(tracer.batches.len(), 1);
    let (id, high, slots) = &tracer.batches[0];
    assert_eq!(*id, 0x7C6);
    assert_eq!(*high, 1);
    assert_eq!(slots.len(), 9);
    for i in 0..8u32 {
        assert_eq!(
            slots[i as usize],
            BatchAccessPartialData::Write { read_value: 10 * i, written_value: 10 * i + 1 }
        );
    }
    assert_eq!(slots[8], BatchAccessPartialData::Read { read_value: 1 });
}

#[test]
fn round_function_record_has_the_mixed_post_images() {
    let mut memory = VectorMemoryImpl::new_for_byte_size(0x2_0000);
    let base = 0x0001_0000u32;
    for slot in 0..16u32 {
        memory.populate(base + 4 * slot, slot + 1);
    }
    for slot in 16..32u32 {
        memory.populate(base + 4 * slot, 0x100 + slot);
    }
    memory.populate(base + 4 * 32, 2);
    let mut trap = TrapReason::NoTrap;
    let mut tracer = RecordingTracer { batches: Vec::new() };
    blake2_round_function(&mut memory, &mut tracer, base, &mut trap, 0, 0);
    let (id, _high, slots) = &tracer.batches[0];
    assert_eq!(*id, 0x7C2);
    assert_eq!(slots.len(), 33);
    for slot in 0..16u32 {
        let written = read_word(&memory, (base + 4 * slot) as u64);
        assert_eq!(
            slots[slot as usize],
            BatchAccessPartialData::Write { read_value: slot + 1, written_value: written }
        );
    }
}

#[test]
fn full_rounds_compression_matches_the_published_test_vector() {
    // BLAKE2s-256 of "abc", single final block: the kernel computes the
    // compression, with the parameter word folded into the first state
    // word, the counter word in slot 8 and the final-flag word in slot 9.
    let mut memory = VectorMemoryImpl::new_for_byte_size(0x2_0000);
    let base = 0x0001_0000u32;
    memory.populate(base, blake2s_iv(0) ^ 0x0101_0020);
    for i in 1..8u32 {
        memory.populate(base + 4 * i, blake2s_iv(i as usize));
    }
    memory.populate(base + 4 * 8, blake2s_iv(4) ^ 3);
    memory.populate(base + 4 * 9, blake2s_iv(6) ^ 0xffff_ffff);
    memory.populate(base + 4 * 10, u32::from_le_bytes(*b"abc\0"));
    for i in 11..26u32 {
        memory.populate(base + 4 * i, 0);
    }
    let mut trap = TrapReason::NoTrap;
    blake2s_round_function::<_, _, false>(&mut memory, &mut (), base, &mut trap, 0, 0);
    assert_eq!(trap, TrapReason::NoTrap);
    let expected: [u8; 32] = [
        0x50, 0x8C, 0x5E, 0x8C, 0x32, 0x7C, 0x14, 0xE2, 0xE1, 0xA7, 0x2B, 0xA3, 0x4E, 0xEB,
        0x45, 0x2F, 0x37, 0x45, 0x8B, 0x20, 0x9E, 0xD6, 0x3A, 0x29, 0x4D, 0x99, 0x9B, 0x4C,
        0x86, 0x67, 0x59, 0x82,
    ];
    for i in 0..8usize {
        let word = u32::from_le_bytes([
            expected[4 * i],
            expected[4 * i + 1],
            expected[4 * i + 2],
            expected[4 * i + 3],
        ]);
        assert_eq!(read_word(&memory, (base + 4 * i as u32) as u64), word);
    }
}

#[test]
fn delegating_cycle_runs_the_witness_kernel() {
    // CSRRW x0, 0x7C6, x1 with x1 naming the ABI region: the reserved
    // window reaches the kernel through the delegating engine.
    let mut state = RiscV32State::initial(0);
    state.registers[1] = 0x0001_0000;
    let mut memory = VectorMemoryImpl::new_for_byte_size(0x2_0000);
    let instr = (0x7C6u32 << 20) | (1 << 15) | (1 << 12) | 0x73;
    memory.populate(0, instr);
    let base = 0x0001_0000u32;
    for slot in 0..8u32 {
        memory.populate(base + 4 * slot, 100 + slot);
    }
    memory.populate(base + 4 * 8, 0);
    let mut mmu = risc_v_simulator::mmu::NoMMU::default();
    let mut source = ZeroedSource;
    state.cycle_with_delegations(&mut memory, &mut (), &mut mmu, &mut source, 0);
    assert_eq!(state.pc, 4);
    assert_eq!(state.machine_mode_trap_data.handling.cause, 0);
    for slot in 0..8u32 {
        assert_eq!(read_word(&memory, (base + 4 * slot) as u64), 101 + slot);
    }
    // The plain engine raises illegal-instruction for the same access.
    let mut state2 = RiscV32State::initial(0);
    state2.registers[1] = 0x0001_0000;
    state2.machine_mode_trap_data.setup.tvec = 0x40;
    let mut memory2 = VectorMemoryImpl::new_for_byte_size(0x2_0000);
    memory2.populate(0, instr);
    state2.cycle(&mut memory2, &mut (), &mut mmu, &mut source, 0);
    assert_eq!(
        state2.machine_mode_trap_data.handling.cause,
        TrapReason::IllegalInstruction.as_register_value()
    );
}
