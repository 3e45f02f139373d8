//! The reference-resolution engine and the canonical hints built on it.
//!
//! `resolve_addr` is the mathematical account of reference resolution:
//! base selection with ap-tracking correction, the underflow guard, the
//! direct and the inner-dereference paths.  The executable functions are
//! proved to decide exactly as it does.

use vstd::prelude::*;
use crate::bignum::big_clone;
use crate::bignum::big_from_i128;
use crate::bignum::big_is_positive;
use crate::bignum::big_sub;
use crate::bignum::big_to_u32_opt;
use crate::bignum::big_to_usize_opt;
use crate::bignum::big_value;
use crate::bindings::Bindings;
use crate::builtin_runner::BuiltinRunner;
use crate::builtin_runner::RangeCheckBuiltinRunner;
use crate::errors::ExecScopeError;
use crate::errors::MemoryError;
use crate::errors::VirtualMachineError;
use crate::hint_processor_definition::ApTracking;
use crate::hint_processor_definition::HintReference;
use crate::hint_processor_definition::RefModel;
use crate::hint_processor_definition::Register;
use crate::exec_scope::ExecutionScopes;
use crate::memory::Memory;
use crate::memory::write_outcome;
use crate::relocatable::MaybeRelocatable;
use crate::relocatable::Relocatable;
use crate::relocatable::ValueModel;
use crate::vm::RunContext;
use crate::vm::VMProxy;

verus! {

/// What resolving one reference yields.
pub enum ResolveOutcome {
    /// An allocation-pointer reference without tracking data on both
    /// sides: the hard error `NoneApTrackingData`.
    MissingTracking,
    /// Tracking groups differ: the hard error `InvalidTrackingGroup`,
    /// carrying the reference's group, then the call site's.
    GroupMismatch(usize, usize),
    /// An inner-dereference immediate outside `[0, usize::MAX]`: the hard
    /// error `BigintToUsizeFail`.
    BadImmediate,
    /// The address is not computable yet: an offset leaves the address
    /// space, or the inner-dereference cell is unset or not an address.
    NotComputable,
    /// The computed address.
    Address(Relocatable),
}

/// Resolution from a selected base.  The base offset is an integer: an
/// ap-tracking correction may push it below zero, and every computed
/// offset is checked against `[0, usize::MAX]` before it becomes an
/// address.
pub open spec fn resolve_with_base(
    r: RefModel,
    segment_index: usize,
    base_offset: int,
    mem: Map<Relocatable, ValueModel>,
) -> ResolveOutcome {
    if base_offset + r.offset1 < 0 {
        ResolveOutcome::NotComputable
    } else if !r.inner_dereference {
        let off = base_offset + r.offset1 + r.offset2;
        if 0 <= off && off <= usize::MAX as int {
            ResolveOutcome::Address(Relocatable { segment_index, offset: off as usize })
        } else {
            ResolveOutcome::NotComputable
        }
    } else {
        let ioff = base_offset + r.offset1;
        if ioff > usize::MAX as int {
            ResolveOutcome::NotComputable
        } else {
            let ia = Relocatable { segment_index, offset: ioff as usize };
            if !mem.contains_key(ia) {
                ResolveOutcome::NotComputable
            } else {
                match mem[ia] {
                    ValueModel::Int(_) => ResolveOutcome::NotComputable,
                    ValueModel::Addr(d) => match r.immediate {
                        Some(imm) => if imm < 0 || imm > usize::MAX as int {
                            ResolveOutcome::BadImmediate
                        } else if d.offset + imm <= usize::MAX as int {
                            ResolveOutcome::Address(Relocatable {
                                segment_index: d.segment_index,
                                offset: (d.offset + imm) as usize,
                            })
                        } else {
                            ResolveOutcome::NotComputable
                        },
                        None => {
                            let off2 = d.offset + r.offset2;
                            if 0 <= off2 && off2 <= usize::MAX as int {
                                ResolveOutcome::Address(Relocatable {
                                    segment_index: d.segment_index,
                                    offset: off2 as usize,
                                })
                            } else {
                                ResolveOutcome::NotComputable
                            }
                        },
                    },
                }
            }
        }
    }
}

/// Full resolution: base selection per register, with the ap-tracking
/// correction for allocation-pointer references.  A reference without a
/// register is not computable.
pub open spec fn resolve_addr(
    r: RefModel,
    fp: Relocatable,
    ap: Relocatable,
    hint_tracking: Option<ApTracking>,
    mem: Map<Relocatable, ValueModel>,
) -> ResolveOutcome {
    match r.register {
        None => ResolveOutcome::NotComputable,
        Some(Register::FP) => resolve_with_base(r, fp.segment_index, fp.offset as int, mem),
        Some(Register::AP) => match (r.ap_tracking_data, hint_tracking) {
            (Some(rt), Some(h)) => if rt.group != h.group {
                ResolveOutcome::GroupMismatch(rt.group, h.group)
            } else {
                resolve_with_base(r, ap.segment_index, ap.offset - (h.offset - rt.offset), mem)
            },
            _ => ResolveOutcome::MissingTracking,
        },
    }
}

/// How `compute_addr_from_reference` reports each outcome.
pub open spec fn outcome_matches(
    o: ResolveOutcome,
    r: Result<Option<MaybeRelocatable>, VirtualMachineError>,
) -> bool {
    match o {
        ResolveOutcome::MissingTracking => r == Err::<
            Option<MaybeRelocatable>,
            VirtualMachineError,
        >(VirtualMachineError::NoneApTrackingData),
        ResolveOutcome::GroupMismatch(a, b) => r == Err::<
            Option<MaybeRelocatable>,
            VirtualMachineError,
        >(VirtualMachineError::InvalidTrackingGroup(a, b)),
        ResolveOutcome::BadImmediate => r == Err::<
            Option<MaybeRelocatable>,
            VirtualMachineError,
        >(VirtualMachineError::BigintToUsizeFail),
        ResolveOutcome::NotComputable => r matches Ok(v) && v is None,
        ResolveOutcome::Address(a) => r matches Ok(v) && v matches Some(m) && m@
            == ValueModel::Addr(a),
    }
}

pub open spec fn opt_tracking(o: Option<&ApTracking>) -> Option<ApTracking> {
    match o {
        Some(t) => Some(*t),
        None => None,
    }
}

/// Corrects the allocation pointer back to the revision a reference was
/// captured under.  The groups must agree; the corrected offset must fit
/// the address space, which the machine guarantees at every call site.
pub fn apply_ap_tracking_correction(
    ap: &Relocatable,
    ref_ap_tracking: &ApTracking,
    hint_ap_tracking: &ApTracking,
) -> (r: Result<MaybeRelocatable, VirtualMachineError>)
    requires
        ref_ap_tracking.group == hint_ap_tracking.group ==> 0 <= ap.offset - (
        hint_ap_tracking.offset - ref_ap_tracking.offset) <= usize::MAX as int,
    ensures
        if ref_ap_tracking.group != hint_ap_tracking.group {
            r == Err::<MaybeRelocatable, VirtualMachineError>(
                VirtualMachineError::InvalidTrackingGroup(
                    ref_ap_tracking.group,
                    hint_ap_tracking.group,
                ),
            )
        } else {
            r matches Ok(m) && m@ == ValueModel::Addr(
                Relocatable {
                    segment_index: ap.segment_index,
                    offset: (ap.offset - (hint_ap_tracking.offset - ref_ap_tracking.offset)) as usize,
                },
            )
        },
{
    if ref_ap_tracking.group != hint_ap_tracking.group {
        return Err(VirtualMachineError::InvalidTrackingGroup(
            ref_ap_tracking.group,
            hint_ap_tracking.group,
        ));
    }
    let corrected: i128 = ap.offset as i128 - (hint_ap_tracking.offset as i128
        - ref_ap_tracking.offset as i128);
    Ok(MaybeRelocatable::RelocatableValue(Relocatable {
        segment_index: ap.segment_index,
        offset: corrected as usize,
    }))
}

/// Resolution from an already selected base, as `resolve_with_base`
/// states it.
fn resolve_from_base(
    hint_reference: &HintReference,
    segment_index: usize,
    base_offset: i128,
    memory: &Memory,
) -> (r: Result<Option<MaybeRelocatable>, VirtualMachineError>)
    requires
        -0x1_0000_0000_0000_0000_0000 <= base_offset <= 0x1_0000_0000_0000_0000_0000,
    ensures
        outcome_matches(
            resolve_with_base(hint_reference@, segment_index, base_offset as int, memory.contents()),
            r,
        ),
{
    let with1: i128 = base_offset + hint_reference.offset1 as i128;
    if with1 < 0 {
        return Ok(None);
    }
    if !hint_reference.inner_dereference {
        let total: i128 = with1 + hint_reference.offset2 as i128;
        if 0 <= total && total <= usize::MAX as i128 {
            Ok(Some(MaybeRelocatable::RelocatableValue(Relocatable {
                segment_index,
                offset: total as usize,
            })))
        } else {
            Ok(None)
        }
    } else {
        if with1 > usize::MAX as i128 {
            return Ok(None);
        }
        let ia = Relocatable { segment_index, offset: with1 as usize };
        match memory.get(&ia) {
            Some(MaybeRelocatable::RelocatableValue(d)) => match &hint_reference.immediate {
                Some(imm) => match big_to_usize_opt(imm) {
                    Some(iu) => match d.offset.checked_add(iu) {
                        Some(shifted) => Ok(Some(MaybeRelocatable::RelocatableValue(Relocatable {
                            segment_index: d.segment_index,
                            offset: shifted,
                        }))),
                        None => Ok(None),
                    },
                    None => Err(VirtualMachineError::BigintToUsizeFail),
                },
                None => {
                    let off2: i128 = d.offset as i128 + hint_reference.offset2 as i128;
                    if 0 <= off2 && off2 <= usize::MAX as i128 {
                        Ok(Some(MaybeRelocatable::RelocatableValue(Relocatable {
                            segment_index: d.segment_index,
                            offset: off2 as usize,
                        })))
                    } else {
                        Ok(None)
                    }
                },
            },
            _ => Ok(None),
        }
    }
}

/// Computes the memory address a reference indicates, as `resolve_addr`
/// states it: `Ok(None)` marks an address that is not computable yet, and
/// the tracking errors are hard failures.
pub fn compute_addr_from_reference(
    hint_reference: &HintReference,
    run_context: &RunContext,
    memory: &Memory,
    hint_ap_tracking: Option<&ApTracking>,
) -> (r: Result<Option<MaybeRelocatable>, VirtualMachineError>)
    ensures
        outcome_matches(
            resolve_addr(
                hint_reference@,
                run_context.fp,
                run_context.ap,
                opt_tracking(hint_ap_tracking),
                memory.contents(),
            ),
            r,
        ),
{
    match &hint_reference.register {
        None => Ok(None),
        Some(Register::FP) => resolve_from_base(
            hint_reference,
            run_context.fp.segment_index,
            run_context.fp.offset as i128,
            memory,
        ),
        Some(Register::AP) => match (&hint_reference.ap_tracking_data, hint_ap_tracking) {
            (Some(rt), Some(h)) => {
                if rt.group != h.group {
                    Err(VirtualMachineError::InvalidTrackingGroup(rt.group, h.group))
                } else {
                    let corrected: i128 = run_context.ap.offset as i128 - (h.offset as i128
                        - rt.offset as i128);
                    resolve_from_base(
                        hint_reference,
                        run_context.ap.segment_index,
                        corrected,
                        memory,
                    )
                }
            },
            _ => Err(VirtualMachineError::NoneApTrackingData),
        },
    }
}

/// What looking a variable's address up yields: the reference may be
/// missing from the mappings, resolution may fail hard, or the address
/// may not be computable.
pub enum VarOutcome {
    MissingIds,
    TrackingMissing,
    GroupMismatch(usize, usize),
    BadImmediate,
    NotComputable,
    Addr(Relocatable),
}

/// The address a named variable resolves to under given machine state.
pub open spec fn var_addr(
    ids: Map<Seq<char>, RefModel>,
    name: Seq<char>,
    fp: Relocatable,
    ap: Relocatable,
    hint_tracking: Option<ApTracking>,
    mem: Map<Relocatable, ValueModel>,
) -> VarOutcome {
    if !ids.contains_key(name) {
        VarOutcome::MissingIds
    } else {
        match resolve_addr(ids[name], fp, ap, hint_tracking, mem) {
            ResolveOutcome::MissingTracking => VarOutcome::TrackingMissing,
            ResolveOutcome::GroupMismatch(a, b) => VarOutcome::GroupMismatch(a, b),
            ResolveOutcome::BadImmediate => VarOutcome::BadImmediate,
            ResolveOutcome::NotComputable => VarOutcome::NotComputable,
            ResolveOutcome::Address(a) => VarOutcome::Addr(a),
        }
    }
}

/// The error each failed lookup outcome surfaces as: a missing reference
/// and an uncomputable address both surface as `FailedToGetIds`.
pub open spec fn var_err(o: VarOutcome) -> VirtualMachineError {
    match o {
        VarOutcome::TrackingMissing => VirtualMachineError::NoneApTrackingData,
        VarOutcome::GroupMismatch(a, b) => VirtualMachineError::InvalidTrackingGroup(a, b),
        VarOutcome::BadImmediate => VirtualMachineError::BigintToUsizeFail,
        _ => VirtualMachineError::FailedToGetIds,
    }
}

/// The address of a variable name, as a machine value.  A missing or
/// uncomputable reference is the hard error `FailedToGetIds` here.
pub fn get_address_from_var_name(
    var_name: &str,
    vm_proxy: &VMProxy,
    ids_data: &Bindings<HintReference>,
    ap_tracking: &ApTracking,
) -> (r: Result<MaybeRelocatable, VirtualMachineError>)
    ensures
        match var_addr(
            ids_data@,
            var_name@,
            vm_proxy.run_context.fp,
            vm_proxy.run_context.ap,
            Some(*ap_tracking),
            vm_proxy.memory.contents(),
        ) {
            VarOutcome::Addr(a) => r matches Ok(m) && m@ == ValueModel::Addr(a),
            o => r matches Err(e) && e == var_err(o),
        },
{
    let reference = match ids_data.get_value(var_name) {
        Some(reference) => reference,
        None => {
            return Err(VirtualMachineError::FailedToGetIds);
        },
    };
    match compute_addr_from_reference(
        reference,
        &vm_proxy.run_context,
        &vm_proxy.memory,
        Some(ap_tracking),
    )? {
        Some(address) => Ok(address),
        None => Err(VirtualMachineError::FailedToGetIds),
    }
}

/// The address of a variable name, as a concrete address.
pub fn get_relocatable_from_var_name(
    var_name: &str,
    vm_proxy: &VMProxy,
    ids_data: &Bindings<HintReference>,
    ap_tracking: &ApTracking,
) -> (r: Result<Relocatable, VirtualMachineError>)
    ensures
        match var_addr(
            ids_data@,
            var_name@,
            vm_proxy.run_context.fp,
            vm_proxy.run_context.ap,
            Some(*ap_tracking),
            vm_proxy.memory.contents(),
        ) {
            VarOutcome::Addr(a) => r == Ok::<Relocatable, VirtualMachineError>(a),
            o => r matches Err(e) && e == var_err(o),
        },
{
    match get_address_from_var_name(var_name, vm_proxy, ids_data, ap_tracking)? {
        MaybeRelocatable::RelocatableValue(relocatable) => Ok(relocatable),
        // resolution only ever computes addresses, so this arm is unreachable
        MaybeRelocatable::Int(_) => Err(VirtualMachineError::ExpectedRelocatable(Relocatable {
            segment_index: 0,
            offset: 0,
        })),
    }
}

/// The value of an integer variable: its reference is resolved and the
/// cell there must hold an integer.
pub fn get_integer_from_var_name<'a>(
    var_name: &str,
    vm_proxy: &'a VMProxy,
    ids_data: &Bindings<HintReference>,
    ap_tracking: &ApTracking,
) -> (r: Result<&'a num_bigint::BigInt, VirtualMachineError>)
    ensures
        match var_addr(
            ids_data@,
            var_name@,
            vm_proxy.run_context.fp,
            vm_proxy.run_context.ap,
            Some(*ap_tracking),
            vm_proxy.memory.contents(),
        ) {
            VarOutcome::Addr(a) => match r {
                Ok(b) => vm_proxy.memory.contents().contains_key(a)
                    && vm_proxy.memory.contents()[a] == ValueModel::Int(big_value(*b)),
                Err(e) => {
                    &&& !vm_proxy.memory.contents().contains_key(a) || !(
                    vm_proxy.memory.contents()[a] is Int)
                    &&& e == VirtualMachineError::ExpectedInteger(a)
                },
            },
            o => r matches Err(e) && e == var_err(o),
        },
{
    let relocatable = get_relocatable_from_var_name(var_name, vm_proxy, ids_data, ap_tracking)?;
    vm_proxy.memory.get_integer(&relocatable)
}

/// The pointer a variable holds: the resolved address itself for a plain
/// reference, and for a dereferenced one the address stored in the cell
/// there, shifted by the immediate if the reference carries one.
pub fn get_ptr_from_var_name(
    var_name: &str,
    vm_proxy: &VMProxy,
    ids_data: &Bindings<HintReference>,
    ap_tracking: &ApTracking,
) -> (r: Result<Relocatable, VirtualMachineError>)
    ensures
        ({
            let ids = ids_data@;
            let mem = vm_proxy.memory.contents();
            match var_addr(
                ids,
                var_name@,
                vm_proxy.run_context.fp,
                vm_proxy.run_context.ap,
                Some(*ap_tracking),
                mem,
            ) {
                VarOutcome::Addr(a) => {
                    if !ids[var_name@].dereference {
                        r == Ok::<Relocatable, VirtualMachineError>(a)
                    } else if mem.contains_key(a) && mem[a] is Addr {
                        let d = mem[a]->Addr_0;
                        match ids[var_name@].immediate {
                            None => r == Ok::<Relocatable, VirtualMachineError>(d),
                            Some(imm) => if 0 <= imm && d.offset + imm <= usize::MAX as int {
                                r == Ok::<Relocatable, VirtualMachineError>(Relocatable {
                                    segment_index: d.segment_index,
                                    offset: (d.offset + imm) as usize,
                                })
                            } else {
                                r == Err::<Relocatable, VirtualMachineError>(
                                    VirtualMachineError::BigintToUsizeFail,
                                )
                            },
                        }
                    } else {
                        r == Err::<Relocatable, VirtualMachineError>(
                            VirtualMachineError::ExpectedRelocatable(a),
                        )
                    }
                },
                o => r matches Err(e) && e == var_err(o),
            }
        }),
{
    let var_addr = get_relocatable_from_var_name(var_name, vm_proxy, ids_data, ap_tracking)?;
    let hint_reference = match ids_data.get_value(var_name) {
        Some(reference) => reference,
        None => {
            return Err(VirtualMachineError::FailedToGetIds);
        },
    };
    if hint_reference.dereference {
        let value = vm_proxy.memory.get_relocatable(&var_addr)?;
        match &hint_reference.immediate {
            Some(immediate) => match big_to_usize_opt(immediate) {
                Some(shift) => match value.offset.checked_add(shift) {
                    Some(offset) => Ok(Relocatable { segment_index: value.segment_index, offset }),
                    None => Err(VirtualMachineError::BigintToUsizeFail),
                },
                None => Err(VirtualMachineError::BigintToUsizeFail),
            },
            None => Ok(value),
        }
    } else {
        Ok(var_addr)
    }
}

/// Converts an integer to `usize`; fails exactly when it does not fit.
pub fn bigint_to_usize(bigint: &num_bigint::BigInt) -> (r: Result<usize, VirtualMachineError>)
    ensures
        if 0 <= big_value(*bigint) <= usize::MAX as int {
            r matches Ok(v) && v as int == big_value(*bigint)
        } else {
            r == Err::<usize, VirtualMachineError>(VirtualMachineError::BigintToUsizeFail)
        },
{
    match big_to_usize_opt(bigint) {
        Some(v) => Ok(v),
        None => Err(VirtualMachineError::BigintToUsizeFail),
    }
}

/// Converts an integer to `u32`; fails exactly when it does not fit.
pub fn bigint_to_u32(bigint: &num_bigint::BigInt) -> (r: Result<u32, VirtualMachineError>)
    ensures
        if 0 <= big_value(*bigint) <= u32::MAX as int {
            r matches Ok(v) && v as int == big_value(*bigint)
        } else {
            r == Err::<u32, VirtualMachineError>(VirtualMachineError::BigintToU32Fail)
        },
{
    match big_to_u32_opt(bigint) {
        Some(v) => Ok(v),
        None => Err(VirtualMachineError::BigintToU32Fail),
    }
}

/// The registered range-check capability: the first builtin registered
/// under the name `range_check`, or `NoRangeCheckBuiltin` if there is
/// none.
pub fn get_range_check_builtin(
    builtin_runners: &Vec<(String, BuiltinRunner)>,
) -> (r: Result<&RangeCheckBuiltinRunner, VirtualMachineError>)
    ensures
        match r {
            Ok(rc) => exists|i: int|
                #![auto]
                0 <= i < builtin_runners@.len() && builtin_runners@[i].0@ == "range_check"@
                    && builtin_runners@[i].1 == BuiltinRunner::RangeCheck(*rc) && (forall|j: int|
                    0 <= j < i ==> builtin_runners@[j].0@ != "range_check"@),
            Err(e) => e == VirtualMachineError::NoRangeCheckBuiltin && forall|i: int|
                #![auto]
                0 <= i < builtin_runners@.len() ==> builtin_runners@[i].0@ != "range_check"@,
        },
{
    let target: String = "range_check".to_owned();
    let mut i: usize = 0;
    while i < builtin_runners.len()
        invariant
            i <= builtin_runners@.len(),
            target@ == "range_check"@,
            forall|j: int| 0 <= j < i ==> builtin_runners@[j].0@ != "range_check"@,
        decreases builtin_runners@.len() - i,
    {
        if builtin_runners[i].0 == target {
            match builtin_runners[i].1.as_range_check() {
                Some(range_check_builtin) => {
                    return Ok(range_check_builtin);
                },
                None => {},
            }
        }
        i = i + 1;
    }
    Err(VirtualMachineError::NoRangeCheckBuiltin)
}

/// Writes a value to the resolved address of a variable name, subject to
/// the memory's write-once rule.
pub fn insert_value_from_var_name(
    var_name: &str,
    value: MaybeRelocatable,
    vm_proxy: &mut VMProxy,
    ids_data: &Bindings<HintReference>,
    ap_tracking: &ApTracking,
) -> (r: Result<(), VirtualMachineError>)
    ensures
        final(vm_proxy).run_context == old(vm_proxy).run_context,
        final(vm_proxy).memory.num_segments() == old(vm_proxy).memory.num_segments(),
        ({
            let mem = old(vm_proxy).memory.contents();
            let nseg = old(vm_proxy).memory.num_segments();
            match var_addr(
                ids_data@,
                var_name@,
                old(vm_proxy).run_context.fp,
                old(vm_proxy).run_context.ap,
                Some(*ap_tracking),
                mem,
            ) {
                VarOutcome::Addr(a) => match write_outcome(nseg, mem, a, value@) {
                    Some(after) => r is Ok && final(vm_proxy).memory.contents() == after,
                    None => {
                        &&& final(vm_proxy).memory.contents() == mem
                        &&& r matches Err(VirtualMachineError::MemoryError(me)) && if
                        a.segment_index >= nseg {
                            me == MemoryError::UnallocatedSegment(
                                a.segment_index,
                                old(vm_proxy).memory.num_segments_exec,
                            )
                        } else {
                            me == MemoryError::InconsistentMemory(a)
                        }
                    },
                },
                o => r matches Err(e) && e == var_err(o) && final(vm_proxy).memory.contents()
                    == mem,
            }
        }),
{
    let var_address = get_relocatable_from_var_name(var_name, &*vm_proxy, ids_data, ap_tracking)?;
    match vm_proxy.memory.insert_value(&var_address, value) {
        Ok(()) => Ok(()),
        Err(e) => Err(VirtualMachineError::MemoryError(e)),
    }
}

/// Writes a value to the cell the allocation pointer names, subject to
/// the memory's write-once rule.
pub fn insert_value_into_ap(
    memory: &mut Memory,
    run_context: &RunContext,
    value: MaybeRelocatable,
) -> (r: Result<(), VirtualMachineError>)
    ensures
        final(memory).num_segments() == old(memory).num_segments(),
        match write_outcome(
            old(memory).num_segments(),
            old(memory).contents(),
            run_context.ap,
            value@,
        ) {
            Some(after) => r is Ok && final(memory).contents() == after,
            None => {
                &&& final(memory).contents() == old(memory).contents()
                &&& r matches Err(VirtualMachineError::MemoryError(me)) && if
                run_context.ap.segment_index >= old(memory).num_segments() {
                    me == MemoryError::UnallocatedSegment(
                        run_context.ap.segment_index,
                        old(memory).num_segments_exec,
                    )
                } else {
                    me == MemoryError::InconsistentMemory(run_context.ap)
                }
            },
        },
{
    match memory.insert_value(&run_context.ap, value) {
        Ok(()) => Ok(()),
        Err(e) => Err(VirtualMachineError::MemoryError(e)),
    }
}

/// What the segment-allocation hint does: the new segment's base address
/// is written to the cell at the allocation pointer, and the segment
/// stays allocated even when that write fails.
pub open spec fn add_segment_post(
    before: VMProxy,
    after_vm: VMProxy,
    r: Result<(), VirtualMachineError>,
) -> bool {
    &&& after_vm.run_context == before.run_context
    &&& after_vm.memory.num_segments() == before.memory.num_segments() + 1
    &&& ({
        let base = Relocatable { segment_index: before.memory.num_segments_exec, offset: 0 };
        match write_outcome(
            before.memory.num_segments() + 1,
            before.memory.contents(),
            before.run_context.ap,
            ValueModel::Addr(base),
        ) {
            Some(after) => r is Ok && after_vm.memory.contents() == after,
            None => {
                &&& after_vm.memory.contents() == before.memory.contents()
                &&& r matches Err(VirtualMachineError::MemoryError(me)) && if
                before.run_context.ap.segment_index >= before.memory.num_segments() + 1 {
                    me == MemoryError::UnallocatedSegment(
                        before.run_context.ap.segment_index,
                        (before.memory.num_segments_exec + 1) as usize,
                    )
                } else {
                    me == MemoryError::InconsistentMemory(before.run_context.ap)
                }
            },
        }
    })
}

/// The segment-allocation hint: allocates a new segment and writes its
/// base address into the cell at the allocation pointer.
pub fn add_segment(vm_proxy: &mut VMProxy) -> (r: Result<(), VirtualMachineError>)
    requires
        old(vm_proxy).memory.num_segments() < usize::MAX,
    ensures
        add_segment_post(*old(vm_proxy), *final(vm_proxy), r),
{
    let new_segment_base = vm_proxy.memory.add_segment();
    insert_value_into_ap(
        &mut vm_proxy.memory,
        &vm_proxy.run_context,
        MaybeRelocatable::RelocatableValue(new_segment_base),
    )
}

/// What the scope-entry hint does: one empty scope is pushed.
pub open spec fn enter_scope_post(
    before: ExecutionScopes,
    after: ExecutionScopes,
    r: Result<(), VirtualMachineError>,
) -> bool {
    &&& after.wf()
    &&& r is Ok
    &&& after.stack() == before.stack().push(Map::<Seq<char>, ValueModel>::empty())
}

/// The scope-entry hint: pushes an empty scope.
pub fn enter_scope(exec_scopes: &mut ExecutionScopes) -> (r: Result<(), VirtualMachineError>)
    requires
        old(exec_scopes).wf(),
    ensures
        enter_scope_post(*old(exec_scopes), *final(exec_scopes), r),
{
    exec_scopes.enter_scope(Bindings::new());
    Ok(())
}

/// What the scope-exit hint does: the current scope is popped, and on
/// the root scope alone the call fails with the main-scope error and
/// leaves the stack unchanged.
pub open spec fn exit_scope_post(
    before: ExecutionScopes,
    after: ExecutionScopes,
    r: Result<(), VirtualMachineError>,
) -> bool {
    &&& after.wf()
    &&& if before.stack().len() > 1 {
        &&& r is Ok
        &&& after.stack() == before.stack().drop_last()
    } else {
        &&& r == Err::<(), VirtualMachineError>(
            VirtualMachineError::MainScopeError(ExecScopeError::ExitMainScopeError),
        )
        &&& after.stack() == before.stack()
    }
}

/// The scope-exit hint: pops the current scope.
pub fn exit_scope(exec_scopes: &mut ExecutionScopes) -> (r: Result<(), VirtualMachineError>)
    requires
        old(exec_scopes).wf(),
    ensures
        exit_scope_post(*old(exec_scopes), *final(exec_scopes), r),
{
    match exec_scopes.exit_scope() {
        Ok(()) => Ok(()),
        Err(e) => Err(VirtualMachineError::MainScopeError(e)),
    }
}

/// What the counted-copy entry hint does: the machine state is left
/// alone, and a scope binding `n` to the value of the integer variable
/// `len` is pushed; reading `len` may fail as `get_integer_from_var_name`
/// fails, and then no scope is pushed.
pub open spec fn memcpy_enter_scope_post(
    vm_before: VMProxy,
    vm_after: VMProxy,
    scopes_before: ExecutionScopes,
    scopes_after: ExecutionScopes,
    ids: Map<Seq<char>, RefModel>,
    tracking: ApTracking,
    r: Result<(), VirtualMachineError>,
) -> bool {
    &&& scopes_after.wf()
    &&& vm_after.run_context == vm_before.run_context
    &&& vm_after.memory.num_segments() == vm_before.memory.num_segments()
    &&& vm_after.memory.contents() == vm_before.memory.contents()
    &&& ({
        let mem = vm_before.memory.contents();
        match var_addr(
            ids,
            "len"@,
            vm_before.run_context.fp,
            vm_before.run_context.ap,
            Some(tracking),
            mem,
        ) {
            VarOutcome::Addr(a) => if mem.contains_key(a) && mem[a] is Int {
                &&& r is Ok
                &&& scopes_after.stack() == scopes_before.stack().push(
                    Map::<Seq<char>, ValueModel>::empty().insert("n"@, mem[a]),
                )
            } else {
                &&& r matches Err(e) && e == VirtualMachineError::ExpectedInteger(a)
                &&& scopes_after.stack() == scopes_before.stack()
            },
            o => r matches Err(e) && e == var_err(o) && scopes_after.stack()
                == scopes_before.stack(),
        }
    })
}

/// The counted-copy entry hint: reads the integer variable `len` and
/// pushes a scope binding `n` to it.
pub fn memcpy_enter_scope(
    vm_proxy: &mut VMProxy,
    exec_scopes: &mut ExecutionScopes,
    ids_data: &Bindings<HintReference>,
    ap_tracking: &ApTracking,
) -> (r: Result<(), VirtualMachineError>)
    requires
        old(exec_scopes).wf(),
    ensures
        memcpy_enter_scope_post(
            *old(vm_proxy),
            *final(vm_proxy),
            *old(exec_scopes),
            *final(exec_scopes),
            ids_data@,
            *ap_tracking,
            r,
        ),
{
    let len = match get_integer_from_var_name("len", &*vm_proxy, ids_data, ap_tracking) {
        Ok(len) => len,
        Err(e) => {
            return Err(e);
        },
    };
    let len_owned = big_clone(len);
    let mut scope = Bindings::new();
    scope.insert("n".to_owned(), MaybeRelocatable::Int(len_owned));
    exec_scopes.enter_scope(scope);
    Ok(())
}

/// What the counted-copy loop hint does: with `n` bound in the current
/// scope to an integer, the flag `1` — while the decremented count is
/// still positive — or `0` is written to the cell of `continue_copying`,
/// and the decremented count replaces `n`; when reading `n` or the write
/// fails, memory and scopes are left as they were.
pub open spec fn memcpy_continue_copying_post(
    vm_before: VMProxy,
    vm_after: VMProxy,
    scopes_before: ExecutionScopes,
    scopes_after: ExecutionScopes,
    ids: Map<Seq<char>, RefModel>,
    tracking: ApTracking,
    r: Result<(), VirtualMachineError>,
) -> bool {
    &&& scopes_after.wf()
    &&& vm_after.run_context == vm_before.run_context
    &&& vm_after.memory.num_segments() == vm_before.memory.num_segments()
    &&& ({
        let cur = scopes_before.current();
        let mem = vm_before.memory.contents();
        let nseg = vm_before.memory.num_segments();
        if !cur.contains_key("n"@) {
            &&& r matches Err(VirtualMachineError::VariableNotInScope(nm)) && nm@ == "n"@
            &&& scopes_after.stack() == scopes_before.stack()
            &&& vm_after.memory.contents() == mem
        } else if !(cur["n"@] is Int) {
            &&& r matches Err(VirtualMachineError::VariableWrongType(nm)) && nm@ == "n"@
            &&& scopes_after.stack() == scopes_before.stack()
            &&& vm_after.memory.contents() == mem
        } else {
            let n0 = cur["n"@]->Int_0;
            let flag: int = if n0 - 1 > 0 {
                1
            } else {
                0
            };
            match var_addr(
                ids,
                "continue_copying"@,
                vm_before.run_context.fp,
                vm_before.run_context.ap,
                Some(tracking),
                mem,
            ) {
                VarOutcome::Addr(a) => match write_outcome(nseg, mem, a, ValueModel::Int(flag)) {
                    Some(after) => {
                        &&& r is Ok
                        &&& vm_after.memory.contents() == after
                        &&& scopes_after.stack() == scopes_before.stack().update(
                            scopes_before.stack().len() - 1,
                            cur.insert("n"@, ValueModel::Int(n0 - 1)),
                        )
                    },
                    None => {
                        &&& vm_after.memory.contents() == mem
                        &&& scopes_after.stack() == scopes_before.stack()
                        &&& r matches Err(VirtualMachineError::MemoryError(me)) && if
                        a.segment_index >= nseg {
                            me == MemoryError::UnallocatedSegment(
                                a.segment_index,
                                vm_before.memory.num_segments_exec,
                            )
                        } else {
                            me == MemoryError::InconsistentMemory(a)
                        }
                    },
                },
                o => {
                    &&& r matches Err(e) && e == var_err(o)
                    &&& vm_after.memory.contents() == mem
                    &&& scopes_after.stack() == scopes_before.stack()
                },
            }
        }
    })
}

/// The counted-copy loop hint: decrements the scope variable `n`, writes
/// the continue flag to the cell of `continue_copying`, and stores the
/// decremented count back into the scope.
pub fn memcpy_continue_copying(
    vm_proxy: &mut VMProxy,
    exec_scopes: &mut ExecutionScopes,
    ids_data: &Bindings<HintReference>,
    ap_tracking: &ApTracking,
) -> (r: Result<(), VirtualMachineError>)
    requires
        old(exec_scopes).wf(),
    ensures
        memcpy_continue_copying_post(
            *old(vm_proxy),
            *final(vm_proxy),
            *old(exec_scopes),
            *final(exec_scopes),
            ids_data@,
            *ap_tracking,
            r,
        ),
{
    let n = match exec_scopes.get_int_ref("n") {
        Ok(n) => n,
        Err(e) => {
            return Err(e);
        },
    };
    let one = big_from_i128(1);
    let new_n = big_sub(n, &one);
    if big_is_positive(&new_n) {
        insert_value_from_var_name(
            "continue_copying",
            MaybeRelocatable::Int(big_from_i128(1)),
            vm_proxy,
            ids_data,
            ap_tracking,
        )?;
    } else {
        insert_value_from_var_name(
            "continue_copying",
            MaybeRelocatable::Int(big_from_i128(0)),
            vm_proxy,
            ids_data,
            ap_tracking,
        )?;
    }
    exec_scopes.insert_value("n", MaybeRelocatable::Int(new_n));
    Ok(())
}

/// Law: a frame-pointer reference that is no inner dereference resolves
/// from the frame pointer alone — ap tracking and memory play no part —
/// and the address is the base offset shifted by both offsets whenever
/// that stays inside the address space.
pub proof fn lemma_fp_resolution(
    r: RefModel,
    fp: Relocatable,
    ap1: Relocatable,
    ap2: Relocatable,
    t1: Option<ApTracking>,
    t2: Option<ApTracking>,
    mem1: Map<Relocatable, ValueModel>,
    mem2: Map<Relocatable, ValueModel>,
)
    requires
        r.register == Some(Register::FP),
        !r.inner_dereference,
    ensures
        resolve_addr(r, fp, ap1, t1, mem1) == resolve_addr(r, fp, ap2, t2, mem2),
        0 <= fp.offset + r.offset1 && 0 <= fp.offset + r.offset1 + r.offset2 <= usize::MAX as int
            ==> resolve_addr(r, fp, ap1, t1, mem1) == ResolveOutcome::Address(
            Relocatable {
                segment_index: fp.segment_index,
                offset: (fp.offset + r.offset1 + r.offset2) as usize,
            },
        ),
{
}

/// Law: an allocation-pointer reference whose tracking group differs
/// from the call site's fails with exactly the group mismatch, and never
/// yields an address.
pub proof fn lemma_group_mismatch(
    r: RefModel,
    fp: Relocatable,
    ap: Relocatable,
    t: Option<ApTracking>,
    mem: Map<Relocatable, ValueModel>,
)
    requires
        r.register == Some(Register::AP),
        r.ap_tracking_data is Some,
        t is Some,
        r.ap_tracking_data.unwrap().group != t.unwrap().group,
    ensures
        resolve_addr(r, fp, ap, t, mem) == ResolveOutcome::GroupMismatch(
            r.ap_tracking_data.unwrap().group,
            t.unwrap().group,
        ),
        !(resolve_addr(r, fp, ap, t, mem) is Address),
{
}

/// Law: when the signed sum of the base offset and the first offset is
/// negative, resolution yields "not computable" — never a wrapped
/// address — for either register and either dereference path.
pub proof fn lemma_underflow_not_computable(
    r: RefModel,
    fp: Relocatable,
    ap: Relocatable,
    t: Option<ApTracking>,
    mem: Map<Relocatable, ValueModel>,
)
    ensures
        r.register == Some(Register::FP) && fp.offset + r.offset1 < 0 ==> resolve_addr(
            r,
            fp,
            ap,
            t,
            mem,
        ) == ResolveOutcome::NotComputable,
        r.register == Some(Register::AP) && r.ap_tracking_data is Some && t is Some
            && r.ap_tracking_data.unwrap().group == t.unwrap().group && ap.offset - (
        t.unwrap().offset - r.ap_tracking_data.unwrap().offset) + r.offset1 < 0 ==> resolve_addr(
            r,
            fp,
            ap,
            t,
            mem,
        ) == ResolveOutcome::NotComputable,
{
}

} // verus!

