//! Per-core time keeping and local interrupt control for a four-core
//! ARMv8-A SoC: a microsecond clock, one-shot countdown alarms, and the
//! per-core interrupt-enable bank that gates their delivery.
use vstd::prelude::*;

pub mod qa7_control;
pub mod timer;

verus! {

/// Errors shared with the device drivers built on this crate.
#[derive(Clone, Copy, Debug, PartialEq, Eq, Structural)]
pub enum DevError {
    /// An entity already exists.
    AlreadyExists,
    /// Try again, for non-blocking APIs.
    Again,
    /// Bad internal state.
    BadState,
    /// Invalid parameter/argument.
    InvalidParam,
    /// Input/output error.
    Io,
    /// Not enough space/cannot allocate memory (DMA).
    NoMemory,
    /// Device or resource is busy.
    ResourceBusy,
    /// This operation is unsupported or unimplemented.
    Unsupported,
}

/// A specialized `Result` type for device operations.
pub type DevResult<T = ()> = Result<T, DevError>;

} // verus!
