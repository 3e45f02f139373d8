//! Typed errors surfaced across the core's boundary.
//!
//! Every failure is returned to the immediate caller as one of these
//! variants, with enough structured context (address, variable name,
//! tracking groups) to diagnose it; none is logged or swallowed.

use vstd::prelude::*;
use crate::relocatable::Relocatable;

verus! {

/// A failure of the memory contract: a write outside any allocated
/// segment, or a second write of a different value to the same cell.
#[derive(Debug)]
pub enum MemoryError {
    /// The written address lies in a segment that was never allocated:
    /// carries the segment index and the number of allocated segments.
    UnallocatedSegment(usize, usize),
    /// The cell at the carried address already holds a different value.
    InconsistentMemory(Relocatable),
}

/// A failure of the execution-scope stack.
#[derive(Debug)]
pub enum ExecScopeError {
    /// The root scope can never be popped.
    ExitMainScopeError,
}

/// The error taxonomy of the hint-execution core.
#[derive(Debug)]
pub enum VirtualMachineError {
    /// An integer did not fit in `usize`.
    BigintToUsizeFail,
    /// An integer did not fit in `u32`.
    BigintToU32Fail,
    /// No builtin named `range_check` is registered.
    NoRangeCheckBuiltin,
    /// A variable name is absent from the reference mappings, or its
    /// reference does not resolve to an address.
    FailedToGetIds,
    /// The cell at the carried address does not hold an integer.
    ExpectedInteger(Relocatable),
    /// The cell at the carried address does not hold an address.
    ExpectedRelocatable(Relocatable),
    /// The ap-tracking group of the reference differs from the call
    /// site's: carries the reference's group, then the call site's.
    InvalidTrackingGroup(usize, usize),
    /// An allocation-pointer reference was resolved without ap-tracking
    /// data on the reference or on the call site.
    NoneApTrackingData,
    /// Two addresses of different segments were subtracted.
    DiffIndexSub,
    /// A value of the wrong kind stood on either side of an arithmetic
    /// operation that is not defined for it.
    NotImplemented,
    /// Popping the root scope was attempted.
    MainScopeError(ExecScopeError),
    /// The carried variable name is absent from the current scope.
    VariableNotInScope(String),
    /// The carried variable is bound in the current scope, but not to the
    /// kind of value the reader asked for.
    VariableWrongType(String),
    /// A memory failure, propagated unchanged.
    MemoryError(MemoryError),
    /// The carried hint body is not one the processor understands.
    UnknownHint(String),
}

} // verus!
