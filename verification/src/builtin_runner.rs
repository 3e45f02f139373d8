//! Builtin capabilities, registered by name.  Range check is the example
//! capability this core carries; a capability is queried by name and then
//! asked for its concrete kind through an explicit accessor.

use vstd::prelude::*;

verus! {

/// The range-check capability: validates that integers written to its
/// segment lie under its bound.
#[derive(Clone, Copy, PartialEq, Eq, Structural, Debug)]
pub struct RangeCheckBuiltinRunner {
    /// Index of the segment the capability owns.
    pub base: usize,
    /// Number of 16-bit parts of the checked range.
    pub n_parts: u32,
}

/// A registered builtin capability.
#[derive(Clone, Copy, PartialEq, Eq, Structural, Debug)]
pub enum BuiltinRunner {
    RangeCheck(RangeCheckBuiltinRunner),
}

impl BuiltinRunner {
    /// The capability as its concrete range-check kind, if it is one.
    pub fn as_range_check(&self) -> (r: Option<&RangeCheckBuiltinRunner>)
        ensures
            match r {
                Some(rc) => *self == BuiltinRunner::RangeCheck(*rc),
                None => !(*self is RangeCheck),
            },
    {
        match self {
            BuiltinRunner::RangeCheck(rc) => Some(rc),
        }
    }
}

} // verus!
