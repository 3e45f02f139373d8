use cairo_hints::bindings::Bindings;
use cairo_hints::builtin_hint_processor::BuiltinHintProcessor;
use cairo_hints::builtin_hint_processor::HintKind;
use cairo_hints::builtin_runner::BuiltinRunner;
use cairo_hints::builtin_runner::RangeCheckBuiltinRunner;
use cairo_hints::errors::VirtualMachineError;
use cairo_hints::exec_scope::ExecutionScopes;
use cairo_hints::hint_processor_definition::ApTracking;
use cairo_hints::hint_processor_definition::HintProcessor;
use cairo_hints::hint_processor_definition::HintReference;
use cairo_hints::hint_utils::apply_ap_tracking_correction;
use cairo_hints::hint_utils::bigint_to_u32;
use cairo_hints::hint_utils::bigint_to_usize;
use cairo_hints::hint_utils::enter_scope;
use cairo_hints::hint_utils::exit_scope;
use cairo_hints::hint_utils::get_range_check_builtin;
use cairo_hints::memory::Memory;
use cairo_hints::relocatable::MaybeRelocatable;
use cairo_hints::relocatable::Relocatable;
use cairo_hints::vm::RunContext;
use cairo_hints::vm::VMProxy;
use num_bigint::BigInt;

fn rel(segment_index: usize, offset: usize) -> Relocatable {
    Relocatable { segment_index, offset }
}

#[test]
fn enter_and_exit_scope_round_trip() {
    // entering a scope and exiting it restores the stack: the variable
    // bound before is visible again, the one bound inside is gone
    let mut scopes = ExecutionScopes::new();
    scopes.insert_value("outer", MaybeRelocatable::Int(BigInt::from(11)));
    enter_scope(&mut scopes).unwrap();
    scopes.insert_value("inner", MaybeRelocatable::Int(BigInt::from(22)));
    assert!(scopes.get_int_ref("outer").is_err());
    exit_scope(&mut scopes).unwrap();
    assert_eq!(*scopes.get_int_ref("outer").unwrap(), BigInt::from(11));
    assert!(matches!(
        scopes.get_int_ref("inner"),
        Err(VirtualMachineError::VariableNotInScope(name)) if name == "inner"
    ));
}

#[test]
fn exit_scope_on_root_fails_and_preserves_stack() {
    let mut scopes = ExecutionScopes::new();
    scopes.insert_value("kept", MaybeRelocatable::Int(BigInt::from(5)));
    let result = exit_scope(&mut scopes);
    assert!(matches!(result, Err(VirtualMachineError::MainScopeError(_))));
    assert_eq!(*scopes.get_int_ref("kept").unwrap(), BigInt::from(5));
}

#[test]
fn scope_variable_wrong_type() {
    let mut scopes = ExecutionScopes::new();
    scopes.insert_value("p", MaybeRelocatable::RelocatableValue(rel(1, 2)));
    assert!(matches!(
        scopes.get_int_ref("p"),
        Err(VirtualMachineError::VariableWrongType(name)) if name == "p"
    ));
}

#[test]
fn apply_ap_tracking_correction_shifts_back() {
    let ap = rel(1, 25);
    let reference_tracking = ApTracking { group: 4, offset: 3 };
    let call_site_tracking = ApTracking { group: 4, offset: 8 };
    let result = apply_ap_tracking_correction(&ap, &reference_tracking, &call_site_tracking);
    assert!(matches!(
        result,
        Ok(MaybeRelocatable::RelocatableValue(a)) if a == rel(1, 20)
    ));
}

#[test]
fn apply_ap_tracking_correction_group_mismatch() {
    let ap = rel(1, 25);
    let reference_tracking = ApTracking { group: 4, offset: 3 };
    let call_site_tracking = ApTracking { group: 5, offset: 3 };
    let result = apply_ap_tracking_correction(&ap, &reference_tracking, &call_site_tracking);
    assert!(matches!(
        result,
        Err(VirtualMachineError::InvalidTrackingGroup(4, 5))
    ));
}

#[test]
fn bigint_to_usize_valid_and_negative() {
    assert_eq!(bigint_to_usize(&BigInt::from(17)).unwrap(), 17usize);
    assert!(matches!(
        bigint_to_usize(&BigInt::from(-1)),
        Err(VirtualMachineError::BigintToUsizeFail)
    ));
}

#[test]
fn bigint_to_u32_valid_and_too_large() {
    assert_eq!(bigint_to_u32(&BigInt::from(70000)).unwrap(), 70000u32);
    assert!(matches!(
        bigint_to_u32(&BigInt::from(1_i64 << 40)),
        Err(VirtualMachineError::BigintToU32Fail)
    ));
}

#[test]
fn range_check_builtin_found_by_name() {
    let runners = vec![
        (
            "output".to_string(),
            BuiltinRunner::RangeCheck(RangeCheckBuiltinRunner { base: 1, n_parts: 8 }),
        ),
        (
            "range_check".to_string(),
            BuiltinRunner::RangeCheck(RangeCheckBuiltinRunner { base: 2, n_parts: 8 }),
        ),
    ];
    let found = get_range_check_builtin(&runners).unwrap();
    assert_eq!(found.base, 2);
}

#[test]
fn range_check_builtin_missing() {
    let runners = vec![(
        "output".to_string(),
        BuiltinRunner::RangeCheck(RangeCheckBuiltinRunner { base: 1, n_parts: 8 }),
    )];
    assert!(matches!(
        get_range_check_builtin(&runners),
        Err(VirtualMachineError::NoRangeCheckBuiltin)
    ));
}

#[test]
fn value_arithmetic() {
    let seven = MaybeRelocatable::Int(BigInt::from(7));
    let three = BigInt::from(3);
    assert!(matches!(
        seven.add_int(&three),
        Ok(MaybeRelocatable::Int(v)) if v == BigInt::from(10)
    ));
    let addr = MaybeRelocatable::RelocatableValue(rel(1, 5));
    assert!(matches!(
        addr.add_int(&three),
        Ok(MaybeRelocatable::RelocatableValue(a)) if a == rel(1, 8)
    ));
    assert!(matches!(
        addr.add_int(&BigInt::from(-9)),
        Err(VirtualMachineError::BigintToUsizeFail)
    ));
    let other = MaybeRelocatable::RelocatableValue(rel(1, 2));
    assert!(matches!(
        addr.sub(&other),
        Ok(MaybeRelocatable::Int(v)) if v == BigInt::from(3)
    ));
    let cross = MaybeRelocatable::RelocatableValue(rel(2, 2));
    assert!(matches!(addr.sub(&cross), Err(VirtualMachineError::DiffIndexSub)));
    assert!(matches!(addr.sub(&seven), Err(VirtualMachineError::NotImplemented)));
    assert!(seven.is_integer() && !seven.is_address());
    assert!(addr.is_address() && !addr.is_integer());
}

fn reference_metadata() -> (Vec<(String, usize)>, Vec<(usize, HintReference)>) {
    let reference_ids = vec![("len".to_string(), 0usize), ("continue_copying".to_string(), 1usize)];
    let references = vec![
        (0usize, HintReference::new_simple(-2)),
        (1usize, HintReference::new_simple(-1)),
    ];
    (reference_ids, references)
}

#[test]
fn compile_hint_recognizes_canonical_bodies() {
    let processor = BuiltinHintProcessor::new();
    let (reference_ids, references) = reference_metadata();
    let tracking = ApTracking::default();
    let compiled = processor
        .compile_hint("vm_enter_scope()", &tracking, &reference_ids, &references)
        .unwrap();
    assert_eq!(compiled.kind, HintKind::EnterScope);
    assert_eq!(compiled.code, "vm_enter_scope()");
    let compiled = processor
        .compile_hint(
            "n -= 1\nids.continue_copying = 1 if n > 0 else 0",
            &tracking,
            &reference_ids,
            &references,
        )
        .unwrap();
    assert_eq!(compiled.kind, HintKind::MemcpyContinueCopying);
}

#[test]
fn compile_hint_rejects_unknown_body() {
    let processor = BuiltinHintProcessor::new();
    let (reference_ids, references) = reference_metadata();
    let result = processor.compile_hint(
        "print(ids.x)",
        &ApTracking::default(),
        &reference_ids,
        &references,
    );
    assert!(matches!(
        result,
        Err(VirtualMachineError::UnknownHint(code)) if code == "print(ids.x)"
    ));
}

#[test]
fn compile_hint_rejects_dangling_reference_id() {
    let processor = BuiltinHintProcessor::new();
    let reference_ids = vec![("len".to_string(), 7usize)];
    let references = vec![(0usize, HintReference::new_simple(-2))];
    let result = processor.compile_hint(
        "vm_enter_scope()",
        &ApTracking::default(),
        &reference_ids,
        &references,
    );
    assert!(matches!(result, Err(VirtualMachineError::FailedToGetIds)));
}

#[test]
fn compiled_hint_is_reexecutable() {
    // one artifact, compiled once, runs again and again against
    // evolving machine state
    let mut processor = BuiltinHintProcessor::new();
    let reference_ids = vec![
        ("len".to_string(), 0usize),
        ("continue_copying".to_string(), 1usize),
    ];
    let references = vec![
        (0usize, HintReference::new_simple(-1)),
        (1usize, HintReference::new(0, 0, false, false)),
    ];
    let tracking = ApTracking::default();
    let enter = processor
        .compile_hint(
            "vm_enter_scope({'n': ids.len})",
            &tracking,
            &reference_ids,
            &references,
        )
        .unwrap();
    let step = processor
        .compile_hint(
            "n -= 1\nids.continue_copying = 1 if n > 0 else 0",
            &tracking,
            &reference_ids,
            &references,
        )
        .unwrap();

    let mut memory = Memory::new();
    memory.add_segment();
    let mut vm = VMProxy { memory, run_context: RunContext { ap: rel(0, 0), fp: rel(0, 1) } };
    vm.memory
        .insert_value(&rel(0, 0), MaybeRelocatable::Int(BigInt::from(2)))
        .unwrap();
    let mut scopes = ExecutionScopes::new();
    let constants: Bindings<MaybeRelocatable> = Bindings::new();

    processor.execute_hint(&mut vm, &mut scopes, &enter, &constants).unwrap();
    processor.execute_hint(&mut vm, &mut scopes, &step, &constants).unwrap();
    assert!(matches!(
        vm.memory.get(&rel(0, 1)),
        Some(MaybeRelocatable::Int(b)) if *b == BigInt::from(1)
    ));
    vm.run_context.fp = rel(0, 2);
    processor.execute_hint(&mut vm, &mut scopes, &step, &constants).unwrap();
    assert!(matches!(
        vm.memory.get(&rel(0, 2)),
        Some(MaybeRelocatable::Int(b)) if *b == BigInt::from(0)
    ));
}

#[test]
fn execute_compiled_add_segment_hint() {
    let mut processor = BuiltinHintProcessor::new();
    let compiled = processor
        .compile_hint("memory[ap] = segments.add()", &ApTracking::default(), &vec![], &vec![])
        .unwrap();
    let mut memory = Memory::new();
    memory.add_segment();
    let mut vm = VMProxy { memory, run_context: RunContext { ap: rel(0, 0), fp: rel(0, 0) } };
    let mut scopes = ExecutionScopes::new();
    let constants: Bindings<MaybeRelocatable> = Bindings::new();
    processor
        .execute_hint(&mut vm, &mut scopes, &compiled, &constants)
        .unwrap();
    assert!(matches!(
        vm.memory.get(&rel(0, 0)),
        Some(MaybeRelocatable::RelocatableValue(a)) if *a == rel(1, 0)
    ));
}
