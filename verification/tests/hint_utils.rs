use cairo_hints::bindings::Bindings;
use cairo_hints::errors::MemoryError;
use cairo_hints::errors::VirtualMachineError;
use cairo_hints::exec_scope::ExecutionScopes;
use cairo_hints::hint_processor_definition::ApTracking;
use cairo_hints::hint_processor_definition::HintReference;
use cairo_hints::hint_processor_definition::Register;
use cairo_hints::hint_utils::add_segment;
use cairo_hints::hint_utils::compute_addr_from_reference;
use cairo_hints::hint_utils::get_integer_from_var_name;
use cairo_hints::hint_utils::get_ptr_from_var_name;
use cairo_hints::hint_utils::memcpy_continue_copying;
use cairo_hints::hint_utils::memcpy_enter_scope;
use cairo_hints::memory::Memory;
use cairo_hints::relocatable::MaybeRelocatable;
use cairo_hints::relocatable::Relocatable;
use cairo_hints::vm::RunContext;
use cairo_hints::vm::VMProxy;
use num_bigint::BigInt;

fn rel(segment_index: usize, offset: usize) -> Relocatable {
    Relocatable { segment_index, offset }
}

fn vm_with_one_segment(fp: Relocatable, ap: Relocatable) -> VMProxy {
    let mut memory = Memory::new();
    memory.add_segment();
    VMProxy { memory, run_context: RunContext { ap, fp } }
}

fn single_ids(name: &str, reference: HintReference) -> Bindings<HintReference> {
    let mut ids_data = Bindings::new();
    ids_data.insert(name.to_string(), reference);
    ids_data
}

#[test]
fn get_integer_from_var_name_valid() {
    let mut vm = vm_with_one_segment(rel(0, 1), rel(0, 0));
    let var_name: &str = "variable";
    let ids_data = single_ids(var_name, HintReference::new_simple(-1));
    vm.memory
        .insert_value(&rel(0, 0), MaybeRelocatable::Int(BigInt::from(10)))
        .unwrap();
    let result = get_integer_from_var_name(var_name, &vm, &ids_data, &ApTracking::default());
    match result {
        Ok(value) => assert_eq!(*value, BigInt::from(10)),
        Err(e) => panic!("unexpected error: {:?}", e),
    }
}

#[test]
fn get_integer_from_var_name_invalid_expected_integer() {
    let mut vm = vm_with_one_segment(rel(0, 1), rel(0, 0));
    let var_name: &str = "variable";
    let ids_data = single_ids(var_name, HintReference::new_simple(-1));
    vm.memory
        .insert_value(&rel(0, 0), MaybeRelocatable::RelocatableValue(rel(0, 1)))
        .unwrap();
    let result = get_integer_from_var_name(var_name, &vm, &ids_data, &ApTracking::default());
    assert!(matches!(
        result,
        Err(VirtualMachineError::ExpectedInteger(a)) if a == rel(0, 0)
    ));
}

#[test]
fn fp_resolution_ignores_tracking() {
    // a frame-pointer reference resolves the same under any ap tracking
    let vm = vm_with_one_segment(rel(0, 7), rel(0, 3));
    let reference = HintReference::new(2, 1, false, true);
    let t1 = ApTracking { group: 1, offset: 5 };
    let t2 = ApTracking { group: 9, offset: 0 };
    let r1 = compute_addr_from_reference(&reference, &vm.run_context, &vm.memory, Some(&t1));
    let r2 = compute_addr_from_reference(&reference, &vm.run_context, &vm.memory, Some(&t2));
    assert!(matches!(
        r1,
        Ok(Some(MaybeRelocatable::RelocatableValue(a))) if a == rel(0, 10)
    ));
    assert!(matches!(
        r2,
        Ok(Some(MaybeRelocatable::RelocatableValue(a))) if a == rel(0, 10)
    ));
}

#[test]
fn ap_resolution_group_mismatch_fails() {
    let vm = vm_with_one_segment(rel(0, 7), rel(0, 3));
    let mut reference = HintReference::new_simple(0);
    reference.register = Some(Register::AP);
    reference.ap_tracking_data = Some(ApTracking { group: 2, offset: 0 });
    let call_site = ApTracking { group: 3, offset: 0 };
    let result =
        compute_addr_from_reference(&reference, &vm.run_context, &vm.memory, Some(&call_site));
    assert!(matches!(
        result,
        Err(VirtualMachineError::InvalidTrackingGroup(2, 3))
    ));
}

#[test]
fn ap_resolution_without_tracking_data_fails() {
    let vm = vm_with_one_segment(rel(0, 7), rel(0, 3));
    let mut reference = HintReference::new_simple(0);
    reference.register = Some(Register::AP);
    let call_site = ApTracking { group: 0, offset: 0 };
    let result =
        compute_addr_from_reference(&reference, &vm.run_context, &vm.memory, Some(&call_site));
    assert!(matches!(result, Err(VirtualMachineError::NoneApTrackingData)));
}

#[test]
fn inner_dereference_resolution() {
    // base offset 10, offset1 = -2 points at a cell holding (1, 7),
    // offset2 = 3: the result is (1, 10)
    let mut vm = vm_with_one_segment(rel(0, 10), rel(0, 0));
    vm.memory
        .insert_value(&rel(0, 8), MaybeRelocatable::RelocatableValue(rel(1, 7)))
        .unwrap();
    let reference = HintReference::new(-2, 3, true, true);
    let result =
        compute_addr_from_reference(&reference, &vm.run_context, &vm.memory, None);
    assert!(matches!(
        result,
        Ok(Some(MaybeRelocatable::RelocatableValue(a))) if a == rel(1, 10)
    ));
}

#[test]
fn inner_dereference_empty_cell_is_none() {
    let vm = vm_with_one_segment(rel(0, 10), rel(0, 0));
    let reference = HintReference::new(-2, 3, true, true);
    let result =
        compute_addr_from_reference(&reference, &vm.run_context, &vm.memory, None);
    assert!(matches!(result, Ok(None)));
}

#[test]
fn offset_underflow_is_none_for_every_combination() {
    // offset1 = -20 against base offset 5 would underflow: None, never a
    // wrapped address
    let vm = vm_with_one_segment(rel(0, 5), rel(0, 5));
    for &inner in &[false, true] {
        for &deref in &[false, true] {
            let reference = HintReference::new(-20, 0, inner, deref);
            let result =
                compute_addr_from_reference(&reference, &vm.run_context, &vm.memory, None);
            assert!(matches!(result, Ok(None)));
        }
    }
}

#[test]
fn get_ptr_from_var_name_dereferences() {
    let mut vm = vm_with_one_segment(rel(0, 1), rel(0, 0));
    vm.memory
        .insert_value(&rel(0, 0), MaybeRelocatable::RelocatableValue(rel(2, 4)))
        .unwrap();
    let ids_data = single_ids("ptr", HintReference::new_simple(-1));
    let result = get_ptr_from_var_name("ptr", &vm, &ids_data, &ApTracking::default());
    assert!(matches!(result, Ok(a) if a == rel(2, 4)));
}

#[test]
fn get_ptr_from_var_name_adds_immediate() {
    let mut vm = vm_with_one_segment(rel(0, 1), rel(0, 0));
    vm.memory
        .insert_value(&rel(0, 0), MaybeRelocatable::RelocatableValue(rel(2, 4)))
        .unwrap();
    let mut reference = HintReference::new_simple(-1);
    reference.immediate = Some(BigInt::from(3));
    let ids_data = single_ids("ptr", reference);
    let result = get_ptr_from_var_name("ptr", &vm, &ids_data, &ApTracking::default());
    assert!(matches!(result, Ok(a) if a == rel(2, 7)));
}

#[test]
fn get_ptr_from_var_name_expects_an_address() {
    let mut vm = vm_with_one_segment(rel(0, 1), rel(0, 0));
    vm.memory
        .insert_value(&rel(0, 0), MaybeRelocatable::Int(BigInt::from(9)))
        .unwrap();
    let ids_data = single_ids("ptr", HintReference::new_simple(-1));
    let result = get_ptr_from_var_name("ptr", &vm, &ids_data, &ApTracking::default());
    assert!(matches!(
        result,
        Err(VirtualMachineError::ExpectedRelocatable(a)) if a == rel(0, 0)
    ));
}

#[test]
fn missing_variable_fails_to_get_ids() {
    let vm = vm_with_one_segment(rel(0, 1), rel(0, 0));
    let ids_data = single_ids("other", HintReference::new_simple(-1));
    let result = get_integer_from_var_name("variable", &vm, &ids_data, &ApTracking::default());
    assert!(matches!(result, Err(VirtualMachineError::FailedToGetIds)));
}

#[test]
fn add_segment_writes_base_into_ap_cell() {
    let mut vm = vm_with_one_segment(rel(0, 0), rel(0, 0));
    add_segment(&mut vm).unwrap();
    let stored = vm.memory.get(&rel(0, 0));
    assert!(matches!(
        stored,
        Some(MaybeRelocatable::RelocatableValue(a)) if *a == rel(1, 0)
    ));
}

fn memcpy_ids() -> Bindings<HintReference> {
    let mut ids_data = Bindings::new();
    ids_data.insert("len".to_string(), HintReference::new_simple(-1));
    ids_data.insert("continue_copying".to_string(), HintReference::new(0, 0, false, false));
    ids_data
}

fn written_flag(vm: &VMProxy, addr: Relocatable) -> BigInt {
    match vm.memory.get(&addr) {
        Some(MaybeRelocatable::Int(b)) => b.clone(),
        other => panic!("expected an integer flag, got {:?}", other),
    }
}

#[test]
fn memcpy_continue_copying_flags_len_two() {
    // len = 2: the first call writes 1 (n = 1), the second writes 0
    let mut vm = vm_with_one_segment(rel(0, 1), rel(0, 0));
    vm.memory
        .insert_value(&rel(0, 0), MaybeRelocatable::Int(BigInt::from(2)))
        .unwrap();
    let ids_data = memcpy_ids();
    let tracking = ApTracking::default();
    let mut scopes = ExecutionScopes::new();
    memcpy_enter_scope(&mut vm, &mut scopes, &ids_data, &tracking).unwrap();

    memcpy_continue_copying(&mut vm, &mut scopes, &ids_data, &tracking).unwrap();
    assert_eq!(written_flag(&vm, rel(0, 1)), BigInt::from(1));

    vm.run_context.fp = rel(0, 2);
    memcpy_continue_copying(&mut vm, &mut scopes, &ids_data, &tracking).unwrap();
    assert_eq!(written_flag(&vm, rel(0, 2)), BigInt::from(0));
}

#[test]
fn memcpy_continue_copying_flags_len_three() {
    // len = 3: the flags are 1, 1, 0 as n runs 2, 1, 0
    let mut vm = vm_with_one_segment(rel(0, 1), rel(0, 0));
    vm.memory
        .insert_value(&rel(0, 0), MaybeRelocatable::Int(BigInt::from(3)))
        .unwrap();
    let ids_data = memcpy_ids();
    let tracking = ApTracking::default();
    let mut scopes = ExecutionScopes::new();
    memcpy_enter_scope(&mut vm, &mut scopes, &ids_data, &tracking).unwrap();

    let mut flags = Vec::new();
    for step in 1..=3usize {
        vm.run_context.fp = rel(0, step);
        memcpy_continue_copying(&mut vm, &mut scopes, &ids_data, &tracking).unwrap();
        flags.push(written_flag(&vm, rel(0, step)));
    }
    assert_eq!(flags, vec![BigInt::from(1), BigInt::from(1), BigInt::from(0)]);
}

#[test]
fn memcpy_continue_copying_without_scope_variable_fails() {
    let mut vm = vm_with_one_segment(rel(0, 1), rel(0, 0));
    let ids_data = memcpy_ids();
    let tracking = ApTracking::default();
    let mut scopes = ExecutionScopes::new();
    let result = memcpy_continue_copying(&mut vm, &mut scopes, &ids_data, &tracking);
    assert!(matches!(
        result,
        Err(VirtualMachineError::VariableNotInScope(name)) if name == "n"
    ));
}

#[test]
fn insert_value_write_once_conflict_surfaces_memory_error() {
    let mut vm = vm_with_one_segment(rel(0, 1), rel(0, 0));
    vm.memory
        .insert_value(&rel(0, 0), MaybeRelocatable::Int(BigInt::from(7)))
        .unwrap();
    let result = vm
        .memory
        .insert_value(&rel(0, 0), MaybeRelocatable::Int(BigInt::from(8)));
    assert!(matches!(result, Err(MemoryError::InconsistentMemory(a)) if a == rel(0, 0)));
    // writing the value the cell already holds is permitted
    vm.memory
        .insert_value(&rel(0, 0), MaybeRelocatable::Int(BigInt::from(7)))
        .unwrap();
}

#[test]
fn insert_value_outside_segments_fails() {
    let mut memory = Memory::new();
    let result = memory.insert_value(&rel(4, 0), MaybeRelocatable::Int(BigInt::from(1)));
    assert!(matches!(result, Err(MemoryError::UnallocatedSegment(4, 0))));
}
