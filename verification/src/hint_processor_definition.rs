//! The hint-processor contract and the symbolic references hints resolve.
//!
//! A processor compiles a hint body once per program location into an
//! artifact of its own choosing, and executes that artifact repeatedly
//! against live machine state, scopes and constants.

use vstd::prelude::*;
use crate::bignum::big_clone;
use crate::bignum::big_value;
use crate::bindings::Bindings;
use crate::errors::VirtualMachineError;
use crate::exec_scope::ExecutionScopes;
use crate::relocatable::MaybeRelocatable;
use crate::vm::VMProxy;

verus! {

/// The two machine registers a reference can be based on.
#[derive(Clone, Copy, PartialEq, Eq, Structural, Debug)]
pub enum Register {
    FP,
    AP,
}

/// Ap-tracking data: which allocation-pointer revision a reference was
/// captured under.  Two values are comparable only within one group.
#[derive(Clone, Copy, PartialEq, Eq, Structural, Debug)]
pub struct ApTracking {
    pub group: usize,
    pub offset: usize,
}

impl Default for ApTracking {
    fn default() -> (r: Self)
        ensures
            r == (ApTracking { group: 0, offset: 0 }),
    {
        ApTracking { group: 0, offset: 0 }
    }
}

/// A symbolic descriptor of a program variable at a hint call site.
#[derive(Debug)]
pub struct HintReference {
    pub register: Option<Register>,
    pub offset1: i32,
    pub offset2: i32,
    pub dereference: bool,
    pub inner_dereference: bool,
    pub ap_tracking_data: Option<ApTracking>,
    pub immediate: Option<num_bigint::BigInt>,
    pub cairo_type: Option<String>,
}

/// The mathematical content of a reference: its fields with the immediate
/// read as the integer it denotes.  The advisory type tag plays no part
/// in address computation and is left out.
#[derive(PartialEq, Eq, Structural)]
pub struct RefModel {
    pub register: Option<Register>,
    pub offset1: int,
    pub offset2: int,
    pub dereference: bool,
    pub inner_dereference: bool,
    pub ap_tracking_data: Option<ApTracking>,
    pub immediate: Option<int>,
}

impl View for HintReference {
    type V = RefModel;

    open spec fn view(&self) -> RefModel {
        RefModel {
            register: self.register,
            offset1: self.offset1 as int,
            offset2: self.offset2 as int,
            dereference: self.dereference,
            inner_dereference: self.inner_dereference,
            ap_tracking_data: self.ap_tracking_data,
            immediate: match self.immediate {
                Some(b) => Some(big_value(b)),
                None => None,
            },
        }
    }
}

impl Clone for HintReference {
    /// The copy describes the same reference: it has the same model, and
    /// it keeps the advisory type tag.
    fn clone(&self) -> (r: Self)
        ensures
            r@ == self@,
    {
        HintReference {
            register: self.register,
            offset1: self.offset1,
            offset2: self.offset2,
            dereference: self.dereference,
            inner_dereference: self.inner_dereference,
            ap_tracking_data: self.ap_tracking_data,
            immediate: match &self.immediate {
                Some(b) => Some(big_clone(b)),
                None => None,
            },
            cairo_type: match &self.cairo_type {
                Some(t) => Some(t.clone()),
                None => None,
            },
        }
    }
}

impl HintReference {
    /// A dereferenced frame-pointer reference with a single offset.
    pub fn new_simple(offset1: i32) -> (r: Self)
        ensures
            r@ == (RefModel {
                register: Some(Register::FP),
                offset1: offset1 as int,
                offset2: 0,
                dereference: true,
                inner_dereference: false,
                ap_tracking_data: None,
                immediate: None,
            }),
            r.cairo_type is None,
    {
        HintReference {
            register: Some(Register::FP),
            offset1,
            offset2: 0,
            inner_dereference: false,
            ap_tracking_data: None,
            immediate: None,
            dereference: true,
            cairo_type: None,
        }
    }

    /// A frame-pointer reference with both offsets and both dereference
    /// flags chosen.
    pub fn new(offset1: i32, offset2: i32, inner_dereference: bool, dereference: bool) -> (r: Self)
        ensures
            r@ == (RefModel {
                register: Some(Register::FP),
                offset1: offset1 as int,
                offset2: offset2 as int,
                dereference,
                inner_dereference,
                ap_tracking_data: None,
                immediate: None,
            }),
            r.cairo_type is None,
    {
        HintReference {
            register: Some(Register::FP),
            offset1,
            offset2,
            inner_dereference,
            ap_tracking_data: None,
            immediate: None,
            dereference,
            cairo_type: None,
        }
    }
}

/// The compile-once/execute-many contract.  `compile_hint` turns a hint
/// body and its reference metadata into an artifact of the processor's
/// choosing, without touching machine state; `execute_hint` runs that
/// artifact against live state, and may be re-invoked with evolving state
/// each time execution reaches the hint's program location.
pub trait HintProcessor {
    type CompiledHint;

    fn compile_hint(
        &self,
        hint_code: &str,
        ap_tracking_data: &ApTracking,
        reference_ids: &Vec<(String, usize)>,
        references: &Vec<(usize, HintReference)>,
    ) -> Result<Self::CompiledHint, VirtualMachineError>;

    fn execute_hint(
        &mut self,
        vm: &mut VMProxy,
        exec_scopes: &mut ExecutionScopes,
        hint_data: &Self::CompiledHint,
        constants: &Bindings<MaybeRelocatable>,
    ) -> (r: Result<(), VirtualMachineError>)
        requires
            old(vm).memory.num_segments() < usize::MAX,
            old(exec_scopes).wf(),
        ensures
            final(exec_scopes).wf(),
    ;
}

} // verus!
