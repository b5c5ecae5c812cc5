pub mod interrupt_cause;
pub mod sapt;
pub mod status;

pub use self::interrupt_cause::INTERRUPT_MASK;
pub use self::interrupt_cause::InterruptReason;
pub use self::interrupt_cause::TrapReason;
pub use self::sapt::SATPRegister;
pub use self::status::MStatusRegister;
