use vstd::prelude::*;

verus! {

/// The lock that guards a shared pool is poisoned: a caller that held it
/// ended abnormally. Nothing was read or changed.
#[derive(Debug, Clone, Copy, PartialEq, Eq, Structural)]
pub struct LockFailure;

/// Why an entry could not be added to a shared pool.
#[derive(Debug, Clone, Copy, PartialEq, Eq, Structural)]
pub enum AppendError {
    /// The lock is poisoned.
    LockFailure,
    /// Every id that a 32-bit counter can give has been given.
    IdsExhausted,
}

/// Why a read by position failed.
#[derive(Debug, Clone, Copy, PartialEq, Eq, Structural)]
pub enum LookupError {
    /// The position is at or beyond the number of retained entries.
    IndexOutOfBounds,
    /// The lock is poisoned.
    LockFailure,
}

/// Why a read of a range of positions failed.
#[derive(Debug, Clone, Copy, PartialEq, Eq, Structural)]
pub enum RangeError {
    /// The range ends before it starts, or ends beyond the retained entries.
    InvalidRange,
    /// The lock is poisoned.
    LockFailure,
}

} // verus!
