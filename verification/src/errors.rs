//! The error taxonomy shared by every target: decode faults, addressing
//! faults, load failures, unsupported protocol surface, and process-control
//! failures on the live target.

use vstd::prelude::*;

verus! {

/// The breakpoint or watch variant that a registration asked for.
#[derive(Debug, Clone, Copy, PartialEq, Eq)]
pub enum ConditionKind {
    IpValue,
    StatePredicate,
    MemoryAccess,
    Io,
    PointeeWatch,
    MemoryLocationWatch,
}

/// The operation on the debuggee that an OS-level failure came from.
#[derive(Debug, Clone, Copy, PartialEq, Eq)]
pub enum ProcessOp {
    Attach,
    Detach,
    Step,
    Wait,
    ReadRegisters,
    SendSignal,
    ListRegions,
}

/// How the debuggee went away.
#[derive(Debug, Clone, Copy, PartialEq, Eq)]
pub enum TerminationCause {
    /// The process exited normally with the given code.
    Exited(i32),
    /// The process was killed by the given signal.
    KilledBySignal(i32),
}

/// Every failure a target can report.
#[derive(Debug, Clone, PartialEq, Eq)]
pub enum DebugError {
    /// No known encoding at `address`; `window` holds the raw bytes examined.
    DecodeFailure { address: u16, window: Vec<u8> },
    /// A memory access beyond the declared capacity of the emulated target.
    AddressOutOfRange { address: u16, capacity: usize },
    /// A program image larger than the emulated target's memory.
    ImageTooLarge { image_size: usize, capacity: usize },
    /// The requested breakpoint or watch variant has no backing
    /// implementation on the bound target.
    UnsupportedConditionKind { kind: ConditionKind },
    /// An OS debugging primitive failed; `errno` is the OS error code.
    ProcessControlFailure { operation: ProcessOp, errno: i32 },
    /// The debuggee is gone; the session is no longer usable.
    DebuggeeTerminated { cause: TerminationCause },
}

} // verus!
