use risc_v_simulator::abstractions::mem_read;
use risc_v_simulator::abstractions::mem_write;
use risc_v_simulator::abstractions::memory::AccessType;
use risc_v_simulator::abstractions::memory::MemorySource;
use risc_v_simulator::abstractions::memory::VectorMemoryImpl;
use risc_v_simulator::cycle::status_registers::TrapReason;
use risc_v_simulator::mmu::MMUImplementation;
use risc_v_simulator::mmu::SimpleMMU;
use risc_v_simulator::cycle::state::Mode;

fn fresh_memory() -> VectorMemoryImpl {
    VectorMemoryImpl::new_for_byte_size(4096)
}

#[test]
fn word_round_trip() {
    let mut memory = fresh_memory();
    let mut trap = TrapReason::NoTrap;
    mem_write::<_, _, true>(&mut memory, &mut (), 8, 0xdead_beef, 4, 0, 0, &mut trap);
    assert_eq!(trap, TrapReason::NoTrap);
    let value = mem_read::<_, _, true>(
        &mut memory,
        &mut (),
        8,
        4,
        AccessType::MemLoad,
        0,
        0,
        &mut trap,
    );
    assert_eq!(trap, TrapReason::NoTrap);
    assert_eq!(value, 0xdead_beef);
}

#[test]
fn byte_round_trip_at_each_lane() {
    for lane in 0..4u64 {
        let mut memory = fresh_memory();
        let mut trap = TrapReason::NoTrap;
        memory.populate(16, 0x1111_1111);
        mem_write::<_, _, true>(&mut memory, &mut (), 16 + lane, 0xabcd_ef99, 1, 0, 0, &mut trap);
        assert_eq!(trap, TrapReason::NoTrap);
        let value = mem_read::<_, _, true>(
            &mut memory,
            &mut (),
            16 + lane,
            1,
            AccessType::MemLoad,
            0,
            0,
            &mut trap,
        );
        assert_eq!(trap, TrapReason::NoTrap);
        // The read hands back the written value masked to one byte.
        assert_eq!(value, 0x99);
        // Other lanes of the word keep their old bytes.
        let word = mem_read::<_, _, true>(
            &mut memory,
            &mut (),
            16,
            4,
            AccessType::MemLoad,
            0,
            0,
            &mut trap,
        );
        let shift = 8 * lane as u32;
        assert_eq!(word & (0xff << shift), 0x99 << shift);
        assert_eq!(word & !(0xffu32 << shift), 0x1111_1111 & !(0xffu32 << shift));
    }
}

#[test]
fn halfword_round_trip() {
    let mut memory = fresh_memory();
    let mut trap = TrapReason::NoTrap;
    mem_write::<_, _, true>(&mut memory, &mut (), 34, 0xffff_4321, 2, 0, 0, &mut trap);
    assert_eq!(trap, TrapReason::NoTrap);
    let value = mem_read::<_, _, true>(
        &mut memory,
        &mut (),
        34,
        2,
        AccessType::MemLoad,
        0,
        0,
        &mut trap,
    );
    assert_eq!(value, 0x4321);
}

#[test]
fn illegal_lane_pairs_misalign() {
    let mut memory = fresh_memory();
    let mut trap = TrapReason::NoTrap;
    let _ = mem_read::<_, _, true>(
        &mut memory,
        &mut (),
        1,
        4,
        AccessType::MemLoad,
        0,
        0,
        &mut trap,
    );
    assert_eq!(trap, TrapReason::LoadAddressMisaligned);
    let mut trap2 = TrapReason::NoTrap;
    mem_write::<_, _, true>(&mut memory, &mut (), 3, 7, 2, 0, 0, &mut trap2);
    assert_eq!(trap2, TrapReason::StoreOrAMOAddressMisaligned);
    // Without sub-word support even an aligned halfword is refused.
    let mut trap3 = TrapReason::NoTrap;
    let _ = mem_read::<_, _, false>(
        &mut memory,
        &mut (),
        2,
        2,
        AccessType::MemLoad,
        0,
        0,
        &mut trap3,
    );
    assert_eq!(trap3, TrapReason::LoadAddressMisaligned);
}

#[test]
fn out_of_range_access_faults_by_class() {
    let mut memory = fresh_memory();
    let mut trap = TrapReason::NoTrap;
    let value = mem_read::<_, _, true>(
        &mut memory,
        &mut (),
        0x10_0000,
        4,
        AccessType::Instruction,
        0,
        0,
        &mut trap,
    );
    assert_eq!(value, 0);
    assert_eq!(trap, TrapReason::InstructionAccessFault);
    let mut trap2 = TrapReason::NoTrap;
    mem_write::<_, _, true>(&mut memory, &mut (), 0x10_0000, 1, 4, 0, 0, &mut trap2);
    assert_eq!(trap2, TrapReason::StoreOrAMOAccessFault);
}

#[test]
fn signed_and_unsigned_extension_of_subword_loads() {
    let mut memory = fresh_memory();
    let mut trap = TrapReason::NoTrap;
    memory.populate(40, 0x0000_8081);
    let byte = mem_read::<_, _, true>(
        &mut memory,
        &mut (),
        40,
        1,
        AccessType::MemLoad,
        0,
        0,
        &mut trap,
    );
    // The access layer hands the byte back zero-extended; the load path
    // applies the chosen extension on top.
    assert_eq!(byte, 0x81);
    assert_eq!(risc_v_simulator::cycle::state::sign_extend_8(byte), 0xffff_ff81);
    assert_eq!(risc_v_simulator::cycle::state::zero_extend_8(byte), 0x0000_0081);
    let half = mem_read::<_, _, true>(
        &mut memory,
        &mut (),
        40,
        2,
        AccessType::MemLoad,
        0,
        0,
        &mut trap,
    );
    assert_eq!(half, 0x8081);
    assert_eq!(risc_v_simulator::cycle::state::sign_extend_16(half), 0xffff_8081);
    assert_eq!(risc_v_simulator::cycle::state::zero_extend_16(half), 0x0000_8081);
}

#[test]
fn bare_mode_is_identity() {
    let mut memory = fresh_memory();
    let mmu = SimpleMMU { sapt: 0 };
    let mut trap = TrapReason::NoTrap;
    let phys = MMUImplementation::<VectorMemoryImpl, ()>::map_virtual_to_physical(
        &mmu,
        0x0000_0123,
        Mode::User,
        AccessType::MemLoad,
        &mut memory,
        &mut (),
        0,
        &mut trap,
    );
    assert_eq!(phys, 0x123);
    assert_eq!(trap, TrapReason::NoTrap);
}

#[test]
fn two_level_walk_translates() {
    let mut memory = VectorMemoryImpl::new_for_byte_size(8192);
    // Root table at page 0: the entry for the high virtual page points
    // at the table in page 1; there, the entry for low page 4 maps to
    // physical page frame 8 with read and accessed bits set.
    memory.populate(0, (1 << 10) | 1);
    memory.populate(0x1004, (2 << 10) | 0x53);
    let mmu = SimpleMMU { sapt: 0x8000_0000 };
    let mut trap = TrapReason::NoTrap;
    let phys = MMUImplementation::<VectorMemoryImpl, ()>::map_virtual_to_physical(
        &mmu,
        0x0000_4004,
        Mode::User,
        AccessType::MemLoad,
        &mut memory,
        &mut (),
        0,
        &mut trap,
    );
    assert_eq!(trap, TrapReason::NoTrap);
    assert_eq!(phys, 0x8004);
}

#[test]
fn walk_without_read_permission_faults() {
    let mut memory = VectorMemoryImpl::new_for_byte_size(8192);
    memory.populate(0, (1 << 10) | 1);
    // Execute-only leaf: loads must page-fault.
    memory.populate(0x1004, (2 << 10) | 0x49);
    let mmu = SimpleMMU { sapt: 0x8000_0000 };
    let mut trap = TrapReason::NoTrap;
    let phys = MMUImplementation::<VectorMemoryImpl, ()>::map_virtual_to_physical(
        &mmu,
        0x0000_4004,
        Mode::User,
        AccessType::MemLoad,
        &mut memory,
        &mut (),
        0,
        &mut trap,
    );
    assert_eq!(phys, 0);
    assert_eq!(trap, TrapReason::LoadPageFault);
}

#[test]
fn machine_mode_skips_translation() {
    let mut memory = fresh_memory();
    let mmu = SimpleMMU { sapt: 0x8000_0000 };
    let mut trap = TrapReason::NoTrap;
    let phys = MMUImplementation::<VectorMemoryImpl, ()>::map_virtual_to_physical(
        &mmu,
        0x0000_4004,
        Mode::Machine,
        AccessType::MemLoad,
        &mut memory,
        &mut (),
        0,
        &mut trap,
    );
    assert_eq!(phys, 0x4004);
    assert_eq!(trap, TrapReason::NoTrap);
}

#[test]
fn satp_writes_demand_machine_mode() {
    let mut mmu = SimpleMMU { sapt: 0 };
    let mut trap = TrapReason::NoTrap;
    MMUImplementation::<VectorMemoryImpl, ()>::write_sapt(
        &mut mmu,
        0x8000_0001,
        Mode::User,
        &mut trap,
    );
    assert_eq!(trap, TrapReason::IllegalInstruction);
    assert_eq!(mmu.sapt, 0);
    let mut trap2 = TrapReason::NoTrap;
    MMUImplementation::<VectorMemoryImpl, ()>::write_sapt(
        &mut mmu,
        0x8000_0001,
        Mode::Machine,
        &mut trap2,
    );
    assert_eq!(trap2, TrapReason::NoTrap);
    assert_eq!(mmu.sapt, 0x8000_0001);
}

#[test]
fn image_loads_little_endian() {
    let mut memory = VectorMemoryImpl::new_for_byte_size(64);
    let bytes: Vec<u8> = vec![0x78, 0x56, 0x34, 0x12, 0x01, 0x00, 0x00, 0x00];
    memory.load_image(8, &bytes);
    let mut trap = TrapReason::NoTrap;
    assert_eq!(memory.get(8, AccessType::MemLoad, &mut trap), 0x1234_5678);
    assert_eq!(memory.get(12, AccessType::MemLoad, &mut trap), 1);
    assert_eq!(memory.get(16, AccessType::MemLoad, &mut trap), 0);
}
