//! The slice of machine state that hint execution sees: the two registers
//! and the memory, passed as one explicit bundle of handles.

use vstd::prelude::*;
use crate::memory::Memory;
use crate::relocatable::Relocatable;

verus! {

/// The register state at the hint's call site: the allocation pointer and
/// the frame pointer, both concrete addresses.
#[derive(Clone, Copy, PartialEq, Eq, Structural, Debug)]
pub struct RunContext {
    pub ap: Relocatable,
    pub fp: Relocatable,
}

/// The bundle of machine state handed to a hint invocation.
pub struct VMProxy {
    pub memory: Memory,
    pub run_context: RunContext,
}

} // verus!
