use vstd::prelude::*;

pub mod csr_processor;
pub mod memory;
pub mod non_determinism;
pub mod oracle;
pub mod tracer;

use self::memory::AccessType;
use self::memory::MemorySource;
use self::tracer::Tracer;
use crate::cycle::status_registers::TrapReason;

verus! {

/// Mask selecting the bytes of an access of the given width.
pub open spec fn spec_value_mask(num_bytes: u32) -> u32 {
    if num_bytes == 1 {
        0xffu32
    } else if num_bytes == 2 {
        0xffffu32
    } else {
        0xffff_ffffu32
    }
}

/// The (unalignment, width) pairs a sub-word-capable access layer accepts:
/// accesses never cross a word boundary.
pub open spec fn spec_legal_pair(unalignment: u64, num_bytes: u32) -> bool {
    (unalignment == 0 && (num_bytes == 4 || num_bytes == 2 || num_bytes == 1)) || (unalignment == 2
        && (num_bytes == 2 || num_bytes == 1)) || (unalignment == 1 && num_bytes == 1) || (
    unalignment == 3 && num_bytes == 1)
}

/// The mask of bits kept from the old word by a sub-word write at the
/// given legal (unalignment, width) pair.
pub open spec fn spec_old_mask(unalignment: u64, num_bytes: u32) -> u32 {
    if unalignment == 0 && num_bytes == 1 {
        0xffffff00u32
    } else if unalignment == 0 && num_bytes == 2 {
        0xffff0000u32
    } else if unalignment == 0 && num_bytes == 4 {
        0x00000000u32
    } else if unalignment == 1 && num_bytes == 1 {
        0xffff00ffu32
    } else if unalignment == 2 && num_bytes == 1 {
        0xff00ffffu32
    } else if unalignment == 2 && num_bytes == 2 {
        0x0000ffffu32
    } else {
        0x00ffffffu32
    }
}

/// What a read of `num_bytes` at `phys_address` returns, and the trap it
/// raises, over the word sequence `mem`. The backing store is word-aligned:
/// a sub-word read fetches the containing word, shifts it right by eight
/// bits per byte of unalignment and masks it to the access width.
pub open spec fn spec_mem_read(
    mem: Seq<u32>,
    phys_address: u64,
    num_bytes: u32,
    access_type: AccessType,
    support_sub_word: bool,
) -> (u32, TrapReason) {
    let unalignment = phys_address & 3;
    let aligned_address = phys_address & !3u64;
    let legal = if support_sub_word {
        spec_legal_pair(unalignment, num_bytes)
    } else {
        unalignment == 0 && num_bytes == 4
    };
    if !legal {
        (0u32, TrapReason::LoadAddressMisaligned)
    } else if aligned_address / 4 < mem.len() {
        let word = mem[(aligned_address / 4) as int];
        (((word >> ((unalignment as u32) * 8)) & spec_value_mask(num_bytes)), TrapReason::NoTrap)
    } else {
        (0u32, access_type.spec_access_fault())
    }
}

/// The word sequence after a write of `num_bytes` of `value` at
/// `phys_address`, and the trap the write raises. A sub-word write is a
/// read-modify-write of the containing word; on any trap the memory is
/// unchanged.
pub open spec fn spec_mem_write(
    mem: Seq<u32>,
    phys_address: u64,
    value: u32,
    num_bytes: u32,
    support_sub_word: bool,
) -> (Seq<u32>, TrapReason) {
    let unalignment = phys_address & 3;
    let aligned_address = phys_address & !3u64;
    let legal = if support_sub_word {
        spec_legal_pair(unalignment, num_bytes)
    } else {
        unalignment == 0 && num_bytes == 4
    };
    if !legal {
        (mem, TrapReason::StoreOrAMOAddressMisaligned)
    } else if aligned_address / 4 < mem.len() {
        let old_word = mem[(aligned_address / 4) as int];
        let new_word = ((value & spec_value_mask(num_bytes)) << ((unalignment as u32) * 8)) | (
        old_word & spec_old_mask(unalignment, num_bytes));
        (mem.update((aligned_address / 4) as int, new_word), TrapReason::NoTrap)
    } else {
        (mem, TrapReason::StoreOrAMOAccessFault)
    }
}

/// Facts about splitting a physical address into its aligned word address
/// and its unalignment.
proof fn lemma_split_address(phys_address: u64)
    by (bit_vector)
    ensures
        (phys_address & !3u64) % 4 == 0,
        phys_address & 3 <= 3,
        phys_address % 4 == 0 ==> phys_address & 3 == 0 && phys_address & !3u64 == phys_address,
{
}

/// Read through the access layer. Sub-word reads are legal only when
/// `SUPPORT_LOAD_LESS_THAN_WORD` is set; an illegal (unalignment, width)
/// pair raises a load-misalignment trap.
pub fn mem_read<M: MemorySource, TR: Tracer, const SUPPORT_LOAD_LESS_THAN_WORD: bool>(
    memory_source: &mut M,
    tracer: &mut TR,
    phys_address: u64,
    num_bytes: u32,
    access_type: AccessType,
    proc_cycle: u32,
    cycle_timestamp: u32,
    trap: &mut TrapReason,
) -> (r: u32)
    requires
        *old(trap) == TrapReason::NoTrap,
        access_type.spec_is_fault_classifiable(),
        num_bytes == 1 || num_bytes == 2 || num_bytes == 4,
    ensures
        final(memory_source)@ == old(memory_source)@,
        (r, *final(trap)) == spec_mem_read(
            old(memory_source)@,
            phys_address,
            num_bytes,
            access_type,
            SUPPORT_LOAD_LESS_THAN_WORD,
        ),
{
    proof {
        lemma_split_address(phys_address);
    }
    let unalignment = phys_address & 3;
    let aligned_address = phys_address & !3u64;
    let legal = if SUPPORT_LOAD_LESS_THAN_WORD {
        match (unalignment, num_bytes) {
            (0, 4) | (0, 2) | (2, 2) | (0, 1) | (1, 1) | (2, 1) | (3, 1) => true,
            _ => false,
        }
    } else {
        unalignment == 0 && num_bytes == 4
    };
    if !legal {
        *trap = TrapReason::LoadAddressMisaligned;
        return 0;
    }
    let value = memory_source.get(aligned_address, access_type, trap);
    if trap.is_a_trap() {
        return 0;
    }
    match access_type {
        AccessType::Instruction => {
            tracer.trace_opcode_read(aligned_address, value, proc_cycle, cycle_timestamp);
        },
        _ => {
            tracer.trace_ram_read(aligned_address, value, proc_cycle, cycle_timestamp);
        },
    }
    let unalignment_bits = (unalignment as u32) * 8;
    let mask: u32 = if num_bytes == 1 {
        0xff
    } else if num_bytes == 2 {
        0xffff
    } else {
        0xffff_ffff
    };
    (value >> unalignment_bits) & mask
}

/// Write through the access layer. A sub-word write reads the containing
/// word, merges the new bytes in and writes the word back; the tracer
/// sees both images. An illegal (unalignment, width) pair raises a
/// store-misalignment trap.
pub fn mem_write<M: MemorySource, TR: Tracer, const SUPPORT_LOAD_LESS_THAN_WORD: bool>(
    memory_source: &mut M,
    tracer: &mut TR,
    phys_address: u64,
    value: u32,
    num_bytes: u32,
    proc_cycle: u32,
    cycle_timestamp: u32,
    trap: &mut TrapReason,
)
    requires
        *old(trap) == TrapReason::NoTrap,
        num_bytes == 1 || num_bytes == 2 || num_bytes == 4,
    ensures
        (final(memory_source)@, *final(trap)) == spec_mem_write(
            old(memory_source)@,
            phys_address,
            value,
            num_bytes,
            SUPPORT_LOAD_LESS_THAN_WORD,
        ),
{
    proof {
        lemma_split_address(phys_address);
    }
    let unalignment = phys_address & 3;
    let aligned_address = phys_address & !3u64;
    let legal = if SUPPORT_LOAD_LESS_THAN_WORD {
        match (unalignment, num_bytes) {
            (0, 4) | (0, 2) | (2, 2) | (0, 1) | (1, 1) | (2, 1) | (3, 1) => true,
            _ => false,
        }
    } else {
        unalignment == 0 && num_bytes == 4
    };
    if !legal {
        *trap = TrapReason::StoreOrAMOAddressMisaligned;
        return ;
    }
    let old_value = memory_source.get(aligned_address, AccessType::MemStore, trap);
    if trap.is_a_trap() {
        return ;
    }
    let value_mask: u32 = if num_bytes == 1 {
        0xff
    } else if num_bytes == 2 {
        0xffff
    } else {
        0xffff_ffff
    };
    let mask_old: u32 = if unalignment == 0 && num_bytes == 1 {
        0xffffff00
    } else if unalignment == 0 && num_bytes == 2 {
        0xffff0000
    } else if unalignment == 0 && num_bytes == 4 {
        0x00000000
    } else if unalignment == 1 && num_bytes == 1 {
        0xffff00ff
    } else if unalignment == 2 && num_bytes == 1 {
        0xff00ffff
    } else if unalignment == 2 && num_bytes == 2 {
        0x0000ffff
    } else {
        0x00ffffff
    };
    let new_value = ((value & value_mask) << ((unalignment as u32) * 8)) | (old_value & mask_old);
    memory_source.set(aligned_address, new_value, AccessType::MemStore, trap);
    tracer.trace_ram_read_write(aligned_address, old_value, new_value, proc_cycle, cycle_timestamp);
}

/// Round trip through the access layer: writing `value` with width
/// `num_bytes` at a legal (unalignment, width) pair and reading the same
/// width back at the same address yields `value` masked to the access
/// width, for every backing word the write merged into.
pub proof fn lemma_mem_round_trip(
    mem: Seq<u32>,
    phys_address: u64,
    value: u32,
    num_bytes: u32,
    access_type: AccessType,
)
    requires
        spec_legal_pair(phys_address & 3, num_bytes),
        (phys_address & !3u64) / 4 < mem.len(),
        access_type == AccessType::Instruction || access_type == AccessType::MemLoad,
    ensures
        spec_mem_read(
            spec_mem_write(mem, phys_address, value, num_bytes, true).0,
            phys_address,
            num_bytes,
            access_type,
            true,
        ) == (value & spec_value_mask(num_bytes), TrapReason::NoTrap),
{
    let old_word = mem[((phys_address & !3u64) / 4) as int];
    lemma_round_trip_word(old_word, value, phys_address & 3, num_bytes);
    assert(spec_mem_write(mem, phys_address, value, num_bytes, true).0.len() == mem.len());
}

/// Bit-level core of the round trip: merging new bytes into a word and
/// extracting the same byte lane gives back the masked value, for each of
/// the seven legal (unalignment, width) pairs.
proof fn lemma_round_trip_word(old_word: u32, value: u32, unalignment: u64, num_bytes: u32)
    by (bit_vector)
    requires
        spec_legal_pair(unalignment, num_bytes),
    ensures
        ((((value & spec_value_mask(num_bytes)) << ((unalignment as u32) * 8)) | (old_word
            & spec_old_mask(unalignment, num_bytes))) >> ((unalignment as u32) * 8))
            & spec_value_mask(num_bytes) == value & spec_value_mask(num_bytes),
{
}

/// Sub-word load extension: a signed byte or halfword load fills every
/// bit above the access width with the sign bit of the accessed bytes; an
/// unsigned one fills them with zero. Stated over the extension functions
/// the load path applies to the value the access layer hands back.
pub proof fn lemma_subword_load_extension(x: u32)
    by (bit_vector)
    ensures
        crate::cycle::state::spec_sign_extend_8(x) & 0xffu32 == x & 0xffu32,
        crate::cycle::state::spec_sign_extend_8(x) & 0xffff_ff00u32 == (if x & 0x80u32 != 0 {
            0xffff_ff00u32
        } else {
            0u32
        }),
        crate::cycle::state::spec_sign_extend_16(x) & 0xffffu32 == x & 0xffffu32,
        crate::cycle::state::spec_sign_extend_16(x) & 0xffff_0000u32 == (if x & 0x8000u32 != 0 {
            0xffff_0000u32
        } else {
            0u32
        }),
        (x & 0xffu32) & 0xffff_ff00u32 == 0u32,
        (x & 0xffffu32) & 0xffff_0000u32 == 0u32,
{
}

} // verus!
