use vstd::prelude::*;

use crate::cycle::status_registers::TrapReason;

verus! {

/// Classification of every memory and register touch, used for trace
/// shaping and for selecting the fault kind of an out-of-range access.
#[derive(Clone, Copy, Debug, PartialEq, Eq, Structural)]
pub enum AccessType {
    Instruction,
    MemLoad,
    MemStore,
    RegReadFirst,
    RegReadSecond,
    RegWrite,
    NoAccess,
}

pub const NUM_DIFFERENT_ACCESS_TYPES: usize = 6;

impl AccessType {
    pub open spec fn spec_is_write_access(self) -> bool {
        match self {
            AccessType::MemStore | AccessType::RegWrite | AccessType::NoAccess => true,
            _ => false,
        }
    }

    pub fn is_write_access(&self) -> (r: bool)
        ensures
            r == self.spec_is_write_access(),
    {
        match self {
            AccessType::MemStore | AccessType::RegWrite | AccessType::NoAccess => true,
            _ => false,
        }
    }

    pub fn is_read_access(&self) -> (r: bool)
        ensures
            r == !self.spec_is_write_access(),
    {
        !self.is_write_access()
    }

    pub open spec fn spec_is_reg_access(self) -> bool {
        match self {
            AccessType::RegReadFirst | AccessType::RegReadSecond | AccessType::RegWrite => true,
            _ => false,
        }
    }

    pub fn is_reg_access(&self) -> (r: bool)
        ensures
            r == self.spec_is_reg_access(),
    {
        match self {
            AccessType::RegReadFirst | AccessType::RegReadSecond | AccessType::RegWrite => true,
            _ => false,
        }
    }

    pub open spec fn spec_from_idx(idx: u32) -> AccessType {
        if idx == 0 {
            AccessType::Instruction
        } else if idx == 1 {
            AccessType::MemLoad
        } else if idx == 2 {
            AccessType::MemStore
        } else if idx == 3 {
            AccessType::RegReadFirst
        } else if idx == 4 {
            AccessType::RegReadSecond
        } else if idx == 5 {
            AccessType::RegWrite
        } else {
            AccessType::NoAccess
        }
    }

    pub fn from_idx(idx: u32) -> (r: Self)
        ensures
            r == AccessType::spec_from_idx(idx),
    {
        match idx {
            0 => AccessType::Instruction,
            1 => AccessType::MemLoad,
            2 => AccessType::MemStore,
            3 => AccessType::RegReadFirst,
            4 => AccessType::RegReadSecond,
            5 => AccessType::RegWrite,
            _ => AccessType::NoAccess,
        }
    }

    /// The access classes for which an out-of-range backing access has a
    /// defined fault kind; any other class going out of range is a bug in
    /// the guest-host contract.
    pub open spec fn spec_is_fault_classifiable(self) -> bool {
        match self {
            AccessType::Instruction | AccessType::MemLoad | AccessType::MemStore => true,
            _ => false,
        }
    }

    /// The fault kind an out-of-range backing access raises for this class.
    pub open spec fn spec_access_fault(self) -> TrapReason {
        match self {
            AccessType::Instruction => TrapReason::InstructionAccessFault,
            AccessType::MemLoad => TrapReason::LoadAccessFault,
            AccessType::MemStore => TrapReason::StoreOrAMOAccessFault,
            _ => TrapReason::NoTrap,
        }
    }
}

/// Flat word-indexed backing store. The view is the sequence of 32-bit
/// words; every access is to a 4-byte-aligned physical address.
pub trait MemorySource: View<V = Seq<u32>> + Sized {
    /// Store a word. Out of range, the store is dropped and the fault for
    /// the access class is raised.
    fn set(&mut self, phys_address: u64, value: u32, access_type: AccessType, trap: &mut TrapReason)
        requires
            phys_address % 4 == 0,
            *old(trap) == TrapReason::NoTrap,
            access_type.spec_is_fault_classifiable() || (phys_address / 4) < old(self)@.len(),
        ensures
            if phys_address / 4 < old(self)@.len() {
                final(self)@ == old(self)@.update((phys_address / 4) as int, value) && *final(trap)
                    == TrapReason::NoTrap
            } else {
                final(self)@ == old(self)@ && *final(trap) == access_type.spec_access_fault()
            },
    ;

    /// Load a word. Out of range, zero is returned and the fault for the
    /// access class is raised.
    fn get(&self, phys_address: u64, access_type: AccessType, trap: &mut TrapReason) -> (r: u32)
        requires
            phys_address % 4 == 0,
            *old(trap) == TrapReason::NoTrap,
            access_type.spec_is_fault_classifiable() || (phys_address / 4) < self@.len(),
        ensures
            if phys_address / 4 < self@.len() {
                r == self@[(phys_address / 4) as int] && *final(trap) == TrapReason::NoTrap
            } else {
                r == 0 && *final(trap) == access_type.spec_access_fault()
            },
    ;
}

/// Memory backed by a plain vector of words.
pub struct VectorMemoryImpl {
    pub inner: Vec<u32>,
}

impl View for VectorMemoryImpl {
    type V = Seq<u32>;

    open spec fn view(&self) -> Seq<u32> {
        self.inner@
    }
}

impl VectorMemoryImpl {
    /// A zeroed memory of the given byte size, which must be a whole
    /// number of words.
    pub fn new_for_byte_size(bytes: usize) -> (r: Self)
        requires
            bytes % 4 == 0,
        ensures
            r@.len() == bytes / 4,
            forall|i: int| 0 <= i < r@.len() ==> r@[i] == 0u32,
    {
        let word_size = bytes / 4;
        let mut inner: Vec<u32> = Vec::new();
        let mut i: usize = 0;
        while i < word_size
            invariant
                i <= word_size,
                inner@.len() == i,
                forall|j: int| 0 <= j < i ==> inner@[j] == 0u32,
            decreases word_size - i,
        {
            inner.push(0u32);
            i = i + 1;
        }
        Self { inner }
    }

    /// Overwrite one aligned word.
    pub fn populate(&mut self, address: u32, value: u32)
        requires
            address % 4 == 0,
            address / 4 < old(self)@.len(),
        ensures
            final(self)@ == old(self)@.update((address / 4) as int, value),
    {
        let idx = (address / 4) as usize;
        self.inner[idx] = value;
    }

    /// Little-endian word assembled from four bytes.
    pub open spec fn spec_le_word(b0: u8, b1: u8, b2: u8, b3: u8) -> u32 {
        (b0 as u32) | ((b1 as u32) << 8u32) | ((b2 as u32) << 16u32) | ((b3 as u32) << 24u32)
    }

    /// Load a raw little-endian image starting at `entry_point`. The image
    /// length must be a whole number of words and the image must fit.
    pub fn load_image(&mut self, entry_point: u32, bytes: &Vec<u8>)
        requires
            entry_point % 4 == 0,
            bytes@.len() % 4 == 0,
            entry_point / 4 + bytes@.len() / 4 <= old(self)@.len(),
        ensures
            final(self)@.len() == old(self)@.len(),
            forall|k: int|
                0 <= k < bytes@.len() / 4 ==> #[trigger] final(self)@[entry_point / 4 + k]
                    == VectorMemoryImpl::spec_le_word(
                    bytes@[4 * k],
                    bytes@[4 * k + 1],
                    bytes@[4 * k + 2],
                    bytes@[4 * k + 3],
                ),
            forall|i: int|
                0 <= i < final(self)@.len() && !(entry_point / 4 <= i < entry_point / 4
                    + bytes@.len() / 4) ==> final(self)@[i] == old(self)@[i],
    {
        let n = bytes.len();
        let num_words = n / 4;
        let base = (entry_point / 4) as usize;
        let mut k: usize = 0;
        while k < num_words
            invariant
                k <= num_words,
                n == bytes@.len(),
                num_words == bytes@.len() / 4,
                bytes@.len() % 4 == 0,
                base == entry_point / 4,
                base + num_words <= self@.len(),
                self@.len() == old(self)@.len(),
                forall|j: int|
                    0 <= j < k ==> #[trigger] self@[base + j] == VectorMemoryImpl::spec_le_word(
                        bytes@[4 * j],
                        bytes@[4 * j + 1],
                        bytes@[4 * j + 2],
                        bytes@[4 * j + 3],
                    ),
                forall|i: int|
                    0 <= i < self@.len() && !(base <= i < base + k) ==> self@[i] == old(self)@[i],
            decreases num_words - k,
        {
            proof {
                assert(bytes@.len() == 4 * (bytes@.len() / 4) + bytes@.len() % 4);
                assert(4 * k + 3 < bytes@.len());
            }
            let b0 = bytes[4 * k];
            let b1 = bytes[4 * k + 1];
            let b2 = bytes[4 * k + 2];
            let b3 = bytes[4 * k + 3];
            let word = (b0 as u32) | ((b1 as u32) << 8u32) | ((b2 as u32) << 16u32) | ((b3 as u32)
                << 24u32);
            self.inner[base + k] = word;
            k = k + 1;
        }
    }
}

impl MemorySource for VectorMemoryImpl {
    fn get(&self, phys_address: u64, access_type: AccessType, trap: &mut TrapReason) -> (r: u32) {
        if phys_address / 4 < self.inner.len() as u64 {
            self.inner[(phys_address / 4) as usize]
        } else {
            match access_type {
                AccessType::Instruction => {
                    *trap = TrapReason::InstructionAccessFault;
                },
                AccessType::MemLoad => {
                    *trap = TrapReason::LoadAccessFault;
                },
                _ => {
                    *trap = TrapReason::StoreOrAMOAccessFault;
                },
            }
            0
        }
    }

    fn set(
        &mut self,
        phys_address: u64,
        value: u32,
        access_type: AccessType,
        trap: &mut TrapReason,
    ) {
        if phys_address / 4 < self.inner.len() as u64 {
            self.inner[(phys_address / 4) as usize] = value;
        } else {
            match access_type {
                AccessType::Instruction => {
                    *trap = TrapReason::InstructionAccessFault;
                },
                AccessType::MemLoad => {
                    *trap = TrapReason::LoadAccessFault;
                },
                _ => {
                    *trap = TrapReason::StoreOrAMOAccessFault;
                },
            }
        }
    }
}

} // verus!
