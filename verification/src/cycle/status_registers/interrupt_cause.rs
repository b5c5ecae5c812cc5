use vstd::prelude::*;

verus! {

/// Bit 31 of the cause register distinguishes interrupts from synchronous traps.
pub const INTERRUPT_MASK: u32 = 0x8000_0000;

/// Interrupt causes; their register encoding carries bit 31 set.
#[derive(Clone, Copy, Debug, PartialEq, Eq, Structural)]
pub enum InterruptReason {
    Reserved,
    SupervisorSoftwareInterrupt,
    MachineSoftwareInterrupt,
    SupervisorTimerInterrupt,
    MachineTimerInterrupt,
    SupervisorExternalInterrupt,
    MachineExternalInterrupt,
}

impl InterruptReason {
    /// Cause number (low bits) of this interrupt, without the interrupt flag.
    pub open spec fn spec_cause_number(self) -> u32 {
        match self {
            InterruptReason::Reserved => 0,
            InterruptReason::SupervisorSoftwareInterrupt => 1,
            InterruptReason::MachineSoftwareInterrupt => 3,
            InterruptReason::SupervisorTimerInterrupt => 5,
            InterruptReason::MachineTimerInterrupt => 7,
            InterruptReason::SupervisorExternalInterrupt => 9,
            InterruptReason::MachineExternalInterrupt => 11,
        }
    }

    /// Register encoding: cause number with bit 31 set.
    pub open spec fn spec_register_value(self) -> u32 {
        (self.spec_cause_number() + 0x8000_0000) as u32
    }

    pub fn as_register_value(self) -> (r: u32)
        ensures
            r == self.spec_register_value(),
    {
        let n: u32 = match self {
            InterruptReason::Reserved => 0,
            InterruptReason::SupervisorSoftwareInterrupt => 1,
            InterruptReason::MachineSoftwareInterrupt => 3,
            InterruptReason::SupervisorTimerInterrupt => 5,
            InterruptReason::MachineTimerInterrupt => 7,
            InterruptReason::SupervisorExternalInterrupt => 9,
            InterruptReason::MachineExternalInterrupt => 11,
        };
        n + 0x8000_0000
    }
}

/// Synchronous trap causes, with `NoTrap` as the sentinel for a cycle that
/// raised nothing.
#[derive(Clone, Copy, Debug, PartialEq, Eq, Structural)]
pub enum TrapReason {
    InstructionAddressMisaligned,
    InstructionAccessFault,
    IllegalInstruction,
    Breakpoint,
    LoadAddressMisaligned,
    LoadAccessFault,
    StoreOrAMOAddressMisaligned,
    StoreOrAMOAccessFault,
    EnvironmentCallFromUMode,
    EnvironmentCallFromSMode,
    EnvironmentCallFromMMode,
    InstructionPageFault,
    LoadPageFault,
    StoreOrAMOPageFault,
    NoTrap,
}

impl TrapReason {
    /// Architectural cause number of this trap. `NoTrap` is given the
    /// out-of-band value 0xff, which is never a valid cause number.
    pub open spec fn spec_register_value(self) -> u32 {
        match self {
            TrapReason::InstructionAddressMisaligned => 0,
            TrapReason::InstructionAccessFault => 1,
            TrapReason::IllegalInstruction => 2,
            TrapReason::Breakpoint => 3,
            TrapReason::LoadAddressMisaligned => 4,
            TrapReason::LoadAccessFault => 5,
            TrapReason::StoreOrAMOAddressMisaligned => 6,
            TrapReason::StoreOrAMOAccessFault => 7,
            TrapReason::EnvironmentCallFromUMode => 8,
            TrapReason::EnvironmentCallFromSMode => 9,
            TrapReason::EnvironmentCallFromMMode => 11,
            TrapReason::InstructionPageFault => 12,
            TrapReason::LoadPageFault => 13,
            TrapReason::StoreOrAMOPageFault => 15,
            TrapReason::NoTrap => 0xff,
        }
    }

    pub open spec fn spec_is_a_trap(self) -> bool {
        self != TrapReason::NoTrap
    }

    pub fn is_a_trap(&self) -> (r: bool)
        ensures
            r == self.spec_is_a_trap(),
    {
        match self {
            TrapReason::NoTrap => false,
            _ => true,
        }
    }

    pub fn as_register_value(self) -> (r: u32)
        ensures
            r == self.spec_register_value(),
    {
        match self {
            TrapReason::InstructionAddressMisaligned => 0,
            TrapReason::InstructionAccessFault => 1,
            TrapReason::IllegalInstruction => 2,
            TrapReason::Breakpoint => 3,
            TrapReason::LoadAddressMisaligned => 4,
            TrapReason::LoadAccessFault => 5,
            TrapReason::StoreOrAMOAddressMisaligned => 6,
            TrapReason::StoreOrAMOAccessFault => 7,
            TrapReason::EnvironmentCallFromUMode => 8,
            TrapReason::EnvironmentCallFromSMode => 9,
            TrapReason::EnvironmentCallFromMMode => 11,
            TrapReason::InstructionPageFault => 12,
            TrapReason::LoadPageFault => 13,
            TrapReason::StoreOrAMOPageFault => 15,
            TrapReason::NoTrap => 0xff,
        }
    }

    /// Whether `value` is the cause number of some synchronous trap.
    pub open spec fn spec_is_trap_number(value: u32) -> bool {
        value == 0 || value == 1 || value == 2 || value == 3 || value == 4 || value == 5
            || value == 6 || value == 7 || value == 8 || value == 9 || value == 11 || value == 12
            || value == 13 || value == 15
    }

    pub fn from_register_value(value: u32) -> (r: Self)
        requires
            Self::spec_is_trap_number(value),
        ensures
            r.spec_register_value() == value,
            r != TrapReason::NoTrap,
    {
        match value {
            0 => TrapReason::InstructionAddressMisaligned,
            1 => TrapReason::InstructionAccessFault,
            2 => TrapReason::IllegalInstruction,
            3 => TrapReason::Breakpoint,
            4 => TrapReason::LoadAddressMisaligned,
            5 => TrapReason::LoadAccessFault,
            6 => TrapReason::StoreOrAMOAddressMisaligned,
            7 => TrapReason::StoreOrAMOAccessFault,
            8 => TrapReason::EnvironmentCallFromUMode,
            9 => TrapReason::EnvironmentCallFromSMode,
            11 => TrapReason::EnvironmentCallFromMMode,
            12 => TrapReason::InstructionPageFault,
            13 => TrapReason::LoadPageFault,
            _ => TrapReason::StoreOrAMOPageFault,
        }
    }
}

/// Bit 31 of a 32-bit value is set exactly when the value is at least 2^31.
pub proof fn lemma_bit31_iff_ge(x: u32)
    by (bit_vector)
    ensures
        (x & 0x8000_0000u32 != 0) <==> x >= 0x8000_0000u32,
{
}

/// The cause register encoding carries bit 31 exactly for interrupts:
/// every synchronous trap cause has bit 31 clear, and every interrupt
/// cause has bit 31 set.
pub proof fn lemma_cause_bit31_iff_interrupt(t: TrapReason, i: InterruptReason)
    ensures
        t.spec_register_value() & INTERRUPT_MASK == 0,
        i.spec_register_value() & INTERRUPT_MASK != 0,
{
    lemma_bit31_iff_ge(t.spec_register_value());
    lemma_bit31_iff_ge(i.spec_register_value());
}

} // verus!
