//! Error taxonomy: loader pre-checks, configuration-time failures, and
//! assignment-time failures (fatal programming-invariant violations).

use vstd::prelude::*;

verus! {

/// Pre-check failures of the loader.
#[derive(Clone, Copy, PartialEq, Eq, Structural, Debug)]
pub enum PreCheckErr {
    ZkmainNotExists,
    ZkmainIsNotFunction,
}

/// Runtime failures of the loader. None is currently raised; the single
/// placeholder variant only keeps the datatype inhabited.
#[derive(Clone, Copy, PartialEq, Eq, Structural, Debug)]
pub enum RuntimeErr {
    Unspecified,
}

/// Loader error.
#[derive(Clone, Copy, PartialEq, Eq, Structural, Debug)]
pub enum Error {
    PreCheck(PreCheckErr),
}

impl Error {
    /// Human-readable description.
    pub fn message(&self) -> (r: String)
        ensures
            *self == Error::PreCheck(PreCheckErr::ZkmainNotExists) ==> r@ =~= "PreCheck(ZkmainNotExists)"@,
            *self == Error::PreCheck(PreCheckErr::ZkmainIsNotFunction) ==> r@ =~= "PreCheck(ZkmainIsNotFunction)"@,
            r@.len() > 0,
    {
        let s = match self {
            Error::PreCheck(PreCheckErr::ZkmainNotExists) => "PreCheck(ZkmainNotExists)",
            Error::PreCheck(PreCheckErr::ZkmainIsNotFunction) => "PreCheck(ZkmainIsNotFunction)",
        };
        let r = s.to_string();
        proof {
            reveal_strlit("PreCheck(ZkmainNotExists)");
            reveal_strlit("PreCheck(ZkmainIsNotFunction)");
        }
        r
    }
}

/// Configuration-time failure: the fixed table geometry cannot hold the
/// configured cells.
#[derive(Clone, Copy, PartialEq, Eq, Structural, Debug)]
pub enum ConfigError {
    CellCapacityExceeded,
}

/// Assignment-time failure: the step record handed to an opcode configuration
/// does not match that opcode's expected shape, or violates a machine bound.
/// All of these signal a driver or interpreter bug, not user input; they are
/// fatal in the sense that the driver aborts the whole assignment on the
/// first one (the verified functions return this error instead of aborting
/// the process, with the row provably untouched).
#[derive(Clone, Copy, PartialEq, Eq, Structural, Debug)]
pub enum AssignError {
    /// The step payload belongs to a different opcode.
    UnexpectedStepShape,
    /// The step record carries fewer memory windows than the opcode issues.
    MissingMemoryWindows,
    /// The recorded effective address does not equal base plus offset.
    InconsistentAddress,
    /// A recorded event-id window violates the data-model ordering: a read's
    /// window must open strictly before and close no earlier than the step,
    /// a write's window must close strictly after the step.
    InvalidMemoryWindow,
    /// The allocated page count exceeds the machine's page limit.
    PageCountTooLarge,
    /// The access reaches beyond the allocated pages.
    AddressOutOfBounds,
    /// The recorded post-write block values do not match the write.
    InconsistentBlockValues,
    /// A stack address would not fit the address width.
    StackAddressOverflow,
}

/// Trace-level assignment failure.
#[derive(Clone, Copy, PartialEq, Eq, Structural, Debug)]
pub enum TraceError {
    /// A step failed to assign.
    Assign(AssignError),
    /// Event ids are not strictly increasing from 1.
    NonMonotonicEid,
    /// A step's recorded stack pointer does not continue the previous one.
    StackPointerMismatch,
}

} // verus!
