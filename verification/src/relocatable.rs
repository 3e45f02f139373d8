//! The relocatable value model: segment-relative addresses, and the sum
//! type of arbitrary-precision integers and addresses, with the arithmetic
//! the machine defines on them.

use vstd::prelude::*;
use crate::bignum::big_add;
use crate::bignum::big_from_i128;
use crate::bignum::big_sub;
use crate::bignum::big_to_usize_opt;
use crate::bignum::big_value;
use crate::errors::VirtualMachineError;

verus! {

/// A concrete memory address: a cell of an independently growing segment.
#[derive(Clone, Copy, PartialEq, Eq, Structural, Debug)]
pub struct Relocatable {
    pub segment_index: usize,
    pub offset: usize,
}

impl Relocatable {
    pub fn new(segment_index: usize, offset: usize) -> (r: Self)
        ensures
            r == (Relocatable { segment_index, offset }),
    {
        Relocatable { segment_index, offset }
    }
}

/// A machine value: an arbitrary-precision integer or an address.
#[derive(Debug)]
pub enum MaybeRelocatable {
    Int(num_bigint::BigInt),
    RelocatableValue(Relocatable),
}

/// The mathematical content of a machine value.
pub enum ValueModel {
    Int(int),
    Addr(Relocatable),
}

impl View for MaybeRelocatable {
    type V = ValueModel;

    open spec fn view(&self) -> ValueModel {
        match self {
            MaybeRelocatable::Int(b) => ValueModel::Int(big_value(*b)),
            MaybeRelocatable::RelocatableValue(a) => ValueModel::Addr(*a),
        }
    }
}

impl MaybeRelocatable {
    /// Whether the value is an integer.
    pub fn is_integer(&self) -> (r: bool)
        ensures
            r == (self@ is Int),
    {
        match self {
            MaybeRelocatable::Int(_) => true,
            MaybeRelocatable::RelocatableValue(_) => false,
        }
    }

    /// Whether the value is an address.
    pub fn is_address(&self) -> (r: bool)
        ensures
            r == (self@ is Addr),
    {
        match self {
            MaybeRelocatable::Int(_) => false,
            MaybeRelocatable::RelocatableValue(_) => true,
        }
    }

    /// Adds an integer to a value.  An integer is shifted exactly; an
    /// address has its offset shifted, and fails if the shifted offset
    /// leaves `[0, usize::MAX]`.
    pub fn add_int(&self, other: &num_bigint::BigInt) -> (r: Result<MaybeRelocatable, VirtualMachineError>)
        ensures
            match self@ {
                ValueModel::Int(v) => r matches Ok(m) && m@ == ValueModel::Int(v + big_value(*other)),
                ValueModel::Addr(a) => {
                    let shifted = a.offset + big_value(*other);
                    if 0 <= shifted <= usize::MAX {
                        r matches Ok(m) && m@ == ValueModel::Addr(Relocatable {
                            segment_index: a.segment_index,
                            offset: shifted as usize,
                        })
                    } else {
                        r matches Err(e) && e is BigintToUsizeFail
                    }
                },
            },
    {
        match self {
            MaybeRelocatable::Int(v) => Ok(MaybeRelocatable::Int(big_add(v, other))),
            MaybeRelocatable::RelocatableValue(a) => {
                let base = big_from_i128(a.offset as i128);
                let shifted = big_add(&base, other);
                match big_to_usize_opt(&shifted) {
                    Some(offset) => Ok(MaybeRelocatable::RelocatableValue(Relocatable {
                        segment_index: a.segment_index,
                        offset,
                    })),
                    None => Err(VirtualMachineError::BigintToUsizeFail),
                }
            }
        }
    }

    /// Subtracts a value from a value.  Two integers subtract exactly; two
    /// addresses of one segment give the integer offset delta; any other
    /// combination is a typed error.
    pub fn sub(&self, other: &MaybeRelocatable) -> (r: Result<MaybeRelocatable, VirtualMachineError>)
        ensures
            match (self@, other@) {
                (ValueModel::Int(a), ValueModel::Int(b)) =>
                    r matches Ok(m) && m@ == ValueModel::Int(a - b),
                (ValueModel::Addr(a), ValueModel::Addr(b)) => {
                    if a.segment_index == b.segment_index {
                        r matches Ok(m) && m@ == ValueModel::Int(a.offset - b.offset)
                    } else {
                        r matches Err(e) && e is DiffIndexSub
                    }
                },
                _ => r matches Err(e) && e is NotImplemented,
            },
    {
        match (self, other) {
            (MaybeRelocatable::Int(a), MaybeRelocatable::Int(b)) => {
                Ok(MaybeRelocatable::Int(big_sub(a, b)))
            }
            (MaybeRelocatable::RelocatableValue(a), MaybeRelocatable::RelocatableValue(b)) => {
                if a.segment_index == b.segment_index {
                    let delta = big_from_i128(a.offset as i128 - b.offset as i128);
                    Ok(MaybeRelocatable::Int(delta))
                } else {
                    Err(VirtualMachineError::DiffIndexSub)
                }
            }
            _ => Err(VirtualMachineError::NotImplemented),
        }
    }
}

} // verus!
