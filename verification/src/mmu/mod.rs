use vstd::prelude::*;

use crate::abstractions::memory::AccessType;
use crate::abstractions::memory::MemorySource;
use crate::abstractions::mem_read;
use crate::abstractions::spec_mem_read;
use crate::abstractions::tracer::Tracer;
use crate::cycle::state::Mode;
use crate::cycle::status_registers::SATPRegister;
use crate::cycle::status_registers::TrapReason;

verus! {

/// Address translation, either bare (identity) or a two-level Sv32 walk.
/// `spec_translate` is the mathematical meaning of a translation over a
/// memory image; the exec walk returns exactly it, reading the page
/// tables through the access layer so a tracer observes the reads.
pub trait MMUImplementation<M: MemorySource, TR: Tracer>: Sized {
    spec fn spec_read_sapt(&self, mode: Mode) -> u32;

    spec fn spec_write_sapt(&self, value: u32, mode: Mode) -> (Self, TrapReason);

    spec fn spec_translate(&self, mem: Seq<u32>, virt_address: u32, mode: Mode, access_type: AccessType) -> (u64, TrapReason);

    fn read_sapt(&mut self, mode: Mode, trap: &mut TrapReason) -> (r: u32)
        ensures
            r == old(self).spec_read_sapt(mode),
            *final(self) == *old(self),
            *final(trap) == *old(trap),
    ;

    fn write_sapt(&mut self, value: u32, mode: Mode, trap: &mut TrapReason)
        requires
            *old(trap) == TrapReason::NoTrap,
        ensures
            (*final(self), *final(trap)) == old(self).spec_write_sapt(value, mode),
    ;

    fn map_virtual_to_physical(
        &self,
        virt_address: u32,
        mode: Mode,
        access_type: AccessType,
        memory_source: &mut M,
        tracer: &mut TR,
        proc_cycle: u32,
        trap: &mut TrapReason,
    ) -> (r: u64)
        requires
            *old(trap) == TrapReason::NoTrap,
            access_type.spec_is_fault_classifiable(),
        ensures
            final(memory_source)@ == old(memory_source)@,
            (r, *final(trap)) == self.spec_translate(
                old(memory_source)@,
                virt_address,
                mode,
                access_type,
            ),
    ;
}

/// A page table is 1024 word-sized entries.
#[derive(Clone, Copy, Debug)]
pub struct PageTable {
    pub entries: [PageTableEntry; 1024],
}

impl PageTable {
    pub fn new() -> (r: Self)
        ensures
            forall|i: int| 0 <= i < 1024 ==> r.entries[i].value == 0u32,
    {
        Self { entries: [PageTableEntry { value: 0u32 };1024] }
    }

    pub fn len() -> (r: usize)
        ensures
            r == 1024,
    {
        1024
    }
}

/// Bit positions of the page-table-entry flags.
#[derive(Clone, Copy, Debug, PartialEq, Eq, Structural)]
pub enum EntryBit {
    Valid,
    Read,
    Write,
    Execute,
    UserMode,
    Global,
    Accessed,
    Dirty,
}

impl EntryBit {
    pub open spec fn spec_bit_position(self) -> u32 {
        match self {
            EntryBit::Valid => 0,
            EntryBit::Read => 1,
            EntryBit::Write => 2,
            EntryBit::Execute => 3,
            EntryBit::UserMode => 4,
            EntryBit::Global => 5,
            EntryBit::Accessed => 6,
            EntryBit::Dirty => 7,
        }
    }

    pub fn bit_position(self) -> (r: u32)
        ensures
            r == self.spec_bit_position(),
    {
        match self {
            EntryBit::Valid => 0,
            EntryBit::Read => 1,
            EntryBit::Write => 2,
            EntryBit::Execute => 3,
            EntryBit::UserMode => 4,
            EntryBit::Global => 5,
            EntryBit::Accessed => 6,
            EntryBit::Dirty => 7,
        }
    }
}

/// Virtual page number, low half: bits 12..22 of a virtual address.
pub fn vpn_0(src: u32) -> (r: u32)
    ensures
        r == (src >> 12u32) & 0x3ffu32,
{
    (src >> 12) & 0x3ff
}

/// Virtual page number, high half: bits 22..32 of a virtual address.
pub fn vpn_1(src: u32) -> (r: u32)
    ensures
        r == (src >> 22u32) & 0x3ffu32,
{
    (src >> 22) & 0x3ff
}

/// Physical page number, low field: bits 10..20.
pub fn ppn_0(src: u32) -> (r: u32)
    ensures
        r == (src >> 10u32) & 0x3ffu32,
{
    (src >> 10) & 0x3ff
}

/// Physical page number, high field: bits 20..32.
pub fn ppn_1(src: u32) -> (r: u32)
    ensures
        r == (src >> 20u32) & 0xfffu32,
{
    (src >> 20) & 0xfff
}

/// Full physical page number: bits 10..32.
pub fn ppn(src: u32) -> (r: u32)
    ensures
        r == (src >> 10u32) & 0x3f_ffffu32,
{
    (src >> 10) & 0x3f_ffff
}

/// One Sv32 page-table entry.
#[derive(Clone, Copy, Debug, Default, PartialEq, Eq, Structural)]
pub struct PageTableEntry {
    pub value: u32,
}

impl PageTableEntry {
    pub fn new() -> (r: Self)
        ensures
            r.value == 0,
    {
        Self { value: 0u32 }
    }

    pub fn from_value(value: u32) -> (r: Self)
        ensures
            r.value == value,
    {
        Self { value }
    }

    pub open spec fn spec_test_bit(self, bit: EntryBit) -> u32 {
        (self.value >> bit.spec_bit_position()) & 1u32
    }

    pub fn test_bit(&self, bit: EntryBit) -> (r: u32)
        ensures
            r == self.spec_test_bit(bit),
    {
        (self.value >> bit.bit_position()) & 1
    }

    /// A valid entry has the V bit set and is not write-only.
    pub open spec fn spec_is_valid(self) -> bool {
        self.spec_test_bit(EntryBit::Valid) != 0 && !(self.spec_test_bit(EntryBit::Write) != 0
            && self.spec_test_bit(EntryBit::Read) == 0)
    }

    pub fn is_valid(&self) -> (r: bool)
        ensures
            r == self.spec_is_valid(),
    {
        self.test_bit(EntryBit::Valid) != 0 && !(self.test_bit(EntryBit::Write) != 0
            && self.test_bit(EntryBit::Read) == 0)
    }

    /// Per-access-class permission bits, and the user bit against the
    /// current mode.
    pub open spec fn spec_is_valid_for_access_type_in_privilege(
        self,
        access_type: AccessType,
        privilege: Mode,
    ) -> bool {
        !((privilege == Mode::User && self.spec_test_bit(EntryBit::UserMode) == 0) || (access_type
            == AccessType::MemLoad && self.spec_test_bit(EntryBit::Read) == 0) || (access_type
            == AccessType::MemStore && self.spec_test_bit(EntryBit::Write) == 0) || (access_type
            == AccessType::Instruction && self.spec_test_bit(EntryBit::Execute) == 0))
    }

    pub fn is_valid_for_access_type_in_privilege(
        &self,
        access_type: AccessType,
        privilege: Mode,
    ) -> (r: bool)
        ensures
            r == self.spec_is_valid_for_access_type_in_privilege(access_type, privilege),
    {
        let mut invalid = privilege == Mode::User && self.test_bit(EntryBit::UserMode) == 0;
        invalid = invalid || (access_type == AccessType::MemLoad && self.test_bit(EntryBit::Read)
            == 0);
        invalid = invalid || (access_type == AccessType::MemStore && self.test_bit(EntryBit::Write)
            == 0);
        invalid = invalid || (access_type == AccessType::Instruction && self.test_bit(
            EntryBit::Execute,
        ) == 0);
        !invalid
    }

    /// The A bit must be set for any access, and the D bit for stores.
    pub open spec fn spec_is_valid_for_ad_flags(self, access_type: AccessType) -> bool {
        !(self.spec_test_bit(EntryBit::Accessed) == 0 || (access_type == AccessType::MemStore
            && self.spec_test_bit(EntryBit::Dirty) == 0))
    }

    pub fn is_valid_for_ad_flags(&self, access_type: AccessType) -> (r: bool)
        ensures
            r == self.spec_is_valid_for_ad_flags(access_type),
    {
        let mut invalid = self.test_bit(EntryBit::Accessed) == 0;
        invalid = invalid || (access_type == AccessType::MemStore && self.test_bit(EntryBit::Dirty)
            == 0);
        !invalid
    }
}

/// The page-fault kind for each access class.
pub open spec fn spec_page_fault(access_type: AccessType) -> TrapReason {
    match access_type {
        AccessType::Instruction => TrapReason::InstructionPageFault,
        AccessType::MemLoad => TrapReason::LoadPageFault,
        _ => TrapReason::StoreOrAMOPageFault,
    }
}

/// No translation: every virtual address is its own physical address.
#[derive(Clone, Copy, Debug, PartialEq, Eq, Structural, Default)]
pub struct NoMMU;

impl<M: MemorySource, TR: Tracer> MMUImplementation<M, TR> for NoMMU {
    open spec fn spec_read_sapt(&self, mode: Mode) -> u32 {
        0u32
    }

    open spec fn spec_write_sapt(&self, value: u32, mode: Mode) -> (Self, TrapReason) {
        (*self, TrapReason::NoTrap)
    }

    open spec fn spec_translate(
        &self,
        mem: Seq<u32>,
        virt_address: u32,
        mode: Mode,
        access_type: AccessType,
    ) -> (u64, TrapReason) {
        (virt_address as u64, TrapReason::NoTrap)
    }

    fn read_sapt(&mut self, mode: Mode, trap: &mut TrapReason) -> (r: u32) {
        0
    }

    fn write_sapt(&mut self, value: u32, mode: Mode, trap: &mut TrapReason) {
    }

    fn map_virtual_to_physical(
        &self,
        virt_address: u32,
        mode: Mode,
        access_type: AccessType,
        memory_source: &mut M,
        tracer: &mut TR,
        proc_cycle: u32,
        trap: &mut TrapReason,
    ) -> (r: u64) {
        virt_address as u64
    }
}

/// Sv32 translation controlled by the `satp` register: active below
/// machine mode when the satp mode bit is set, bare otherwise.
#[derive(Clone, Copy, Debug, PartialEq, Eq, Structural, Default)]
pub struct SimpleMMU {
    pub sapt: u32,
}

/// The two-level Sv32 page walk over the memory image `mem`, starting from
/// the root page number in `sapt`. Returns the physical address and the
/// trap raised, mirroring one loop level per call.
pub open spec fn spec_sv32_walk(
    sapt: u32,
    mem: Seq<u32>,
    virt_address: u32,
    mode: Mode,
    access_type: AccessType,
) -> (u64, TrapReason) {
    let root = ((sapt & 0x3f_ffffu32) << 12u32);
    let pte1_addr = root.wrapping_add((virt_address >> 22u32) & 0x3ffu32);
    let (pte1_value, trap1) = spec_mem_read(mem, pte1_addr as u64, 4, access_type, true);
    let pte1 = PageTableEntry { value: pte1_value };
    if trap1 != TrapReason::NoTrap {
        (0u64, trap1)
    } else if !pte1.spec_is_valid() {
        (0u64, spec_page_fault(access_type))
    } else if pte1.spec_test_bit(EntryBit::Read) == 0 && pte1.spec_test_bit(EntryBit::Execute)
        == 0 {
        // Non-leaf at level 1: walk one level further.
        let next = ((pte1_value >> 10u32) & 0x3f_ffffu32) << 12u32;
        let pte0_addr = next.wrapping_add((virt_address >> 12u32) & 0x3ffu32);
        let (pte0_value, trap0) = spec_mem_read(mem, pte0_addr as u64, 4, access_type, true);
        let pte0 = PageTableEntry { value: pte0_value };
        if trap0 != TrapReason::NoTrap {
            (0u64, trap0)
        } else if !pte0.spec_is_valid() {
            (0u64, spec_page_fault(access_type))
        } else if pte0.spec_test_bit(EntryBit::Read) == 0 && pte0.spec_test_bit(EntryBit::Execute)
            == 0 {
            // A non-leaf entry at the last level ends the walk.
            (0u64, spec_page_fault(access_type))
        } else if !pte0.spec_is_valid_for_access_type_in_privilege(access_type, mode) {
            (0u64, spec_page_fault(access_type))
        } else if !pte0.spec_is_valid_for_ad_flags(access_type) {
            (0u64, spec_page_fault(access_type))
        } else {
            let shifted = pte0_value << 2u32;
            (
                ((((shifted >> 20u32) & 0xfffu32) as u64) << 22u64) | ((((shifted >> 10u32)
                    & 0x3ffu32) as u64) << 12u64) | ((virt_address & 0xfffu32) as u64),
                TrapReason::NoTrap,
            )
        }
    } else {
        // Leaf at level 1: a superpage; its low page-number field must be
        // zero.
        if !pte1.spec_is_valid_for_access_type_in_privilege(access_type, mode) {
            (0u64, spec_page_fault(access_type))
        } else {
            let shifted = pte1_value << 2u32;
            if (shifted >> 10u32) & 0x3ffu32 != 0 {
                (0u64, spec_page_fault(access_type))
            } else if !pte1.spec_is_valid_for_ad_flags(access_type) {
                (0u64, spec_page_fault(access_type))
            } else {
                (
                    ((((shifted >> 20u32) & 0xfffu32) as u64) << 22u64) | ((virt_address
                        & 0x3f_ffffu32) as u64),
                    TrapReason::NoTrap,
                )
            }
        }
    }
}

impl SimpleMMU {
    /// Whether translation is active for this mode and satp image.
    pub open spec fn spec_should_translate(self, mode: Mode) -> bool {
        mode != Mode::Machine && (self.sapt >> 31u32) & 1u32 != 0
    }
}

impl<M: MemorySource, TR: Tracer> MMUImplementation<M, TR> for SimpleMMU {
    open spec fn spec_read_sapt(&self, mode: Mode) -> u32 {
        self.sapt
    }

    open spec fn spec_write_sapt(&self, value: u32, mode: Mode) -> (Self, TrapReason) {
        if mode != Mode::Machine {
            (*self, TrapReason::IllegalInstruction)
        } else {
            (SimpleMMU { sapt: value }, TrapReason::NoTrap)
        }
    }

    open spec fn spec_translate(
        &self,
        mem: Seq<u32>,
        virt_address: u32,
        mode: Mode,
        access_type: AccessType,
    ) -> (u64, TrapReason) {
        if !self.spec_should_translate(mode) {
            (virt_address as u64, TrapReason::NoTrap)
        } else {
            spec_sv32_walk(self.sapt, mem, virt_address, mode, access_type)
        }
    }

    fn read_sapt(&mut self, mode: Mode, trap: &mut TrapReason) -> (r: u32) {
        self.sapt
    }

    fn write_sapt(&mut self, value: u32, mode: Mode, trap: &mut TrapReason) {
        if !matches!(mode, Mode::Machine) {
            *trap = TrapReason::IllegalInstruction;
        } else {
            self.sapt = value;
        }
    }

    fn map_virtual_to_physical(
        &self,
        virt_address: u32,
        mode: Mode,
        access_type: AccessType,
        memory_source: &mut M,
        tracer: &mut TR,
        proc_cycle: u32,
        trap: &mut TrapReason,
    ) -> (r: u64) {
        let mode_val = mode.as_register_value();
        let should_translate = mode_val < 3 && (self.sapt >> 31) & 1 != 0;
        if !should_translate {
            return virt_address as u64;
        }
        let root = (self.sapt & 0x3f_ffff) << 12;
        let pte1_addr = root.wrapping_add((virt_address >> 22) & 0x3ff);
        let pte1_value = mem_read::<M, TR, true>(
            memory_source,
            tracer,
            pte1_addr as u64,
            4,
            access_type,
            proc_cycle,
            proc_cycle,
            trap,
        );
        if trap.is_a_trap() {
            return 0;
        }
        let pte1 = PageTableEntry::from_value(pte1_value);
        if !pte1.is_valid() {
            *trap = page_fault(access_type);
            return 0;
        }
        if pte1.test_bit(EntryBit::Read) == 0 && pte1.test_bit(EntryBit::Execute) == 0 {
            let next = ((pte1_value >> 10) & 0x3f_ffff) << 12;
            let pte0_addr = next.wrapping_add((virt_address >> 12) & 0x3ff);
            let pte0_value = mem_read::<M, TR, true>(
                memory_source,
                tracer,
                pte0_addr as u64,
                4,
                access_type,
                proc_cycle,
                proc_cycle,
                trap,
            );
            if trap.is_a_trap() {
                return 0;
            }
            let pte0 = PageTableEntry::from_value(pte0_value);
            if !pte0.is_valid() {
                *trap = page_fault(access_type);
                return 0;
            }
            if pte0.test_bit(EntryBit::Read) == 0 && pte0.test_bit(EntryBit::Execute) == 0 {
                *trap = page_fault(access_type);
                return 0;
            }
            if !pte0.is_valid_for_access_type_in_privilege(access_type, mode) {
                *trap = page_fault(access_type);
                return 0;
            }
            if !pte0.is_valid_for_ad_flags(access_type) {
                *trap = page_fault(access_type);
                return 0;
            }
            let shifted = pte0_value << 2;
            ((((shifted >> 20) & 0xfff) as u64) << 22) | ((((shifted >> 10) & 0x3ff) as u64) << 12)
                | ((virt_address & 0xfff) as u64)
        } else {
            if !pte1.is_valid_for_access_type_in_privilege(access_type, mode) {
                *trap = page_fault(access_type);
                return 0;
            }
            let shifted = pte1_value << 2;
            if (shifted >> 10) & 0x3ff != 0 {
                *trap = page_fault(access_type);
                return 0;
            }
            if !pte1.is_valid_for_ad_flags(access_type) {
                *trap = page_fault(access_type);
                return 0;
            }
            ((((shifted >> 20) & 0xfff) as u64) << 22) | ((virt_address & 0x3f_ffff) as u64)
        }
    }
}

/// The page-fault kind for each access class.
pub fn page_fault(access_type: AccessType) -> (r: TrapReason)
    ensures
        r == spec_page_fault(access_type),
{
    match access_type {
        AccessType::Instruction => TrapReason::InstructionPageFault,
        AccessType::MemLoad => TrapReason::LoadPageFault,
        _ => TrapReason::StoreOrAMOPageFault,
    }
}

} // verus!
